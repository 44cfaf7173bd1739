use vstd::prelude::*;
use vstd::string::StringExecFns;

verus! {

/// The kind of an error. Each variant carries the message of the
/// lower-level error that caused it.
///
/// Note that these do not exist in a hierarchy.
#[derive(Clone, Debug, PartialEq, Eq)]
pub enum Diagnostic {
    DeviceError(String),
    CreateBindGroupLayoutError(String),
    CreatePipelineLayoutError(String),
    CreateRenderPipelineError(String),
    CreateComputePipelineError(String),
    ImplicitLayoutError(String),
    MissingFeatures(String),
    MissingDownlevelFlags(String),
    StageError(String),
}

/// Proof that a diagnostic was captured into a [`Context`]. It carries no
/// diagnostics itself and cannot be built outside this crate.
#[non_exhaustive]
pub struct Error;

/// Token handed out by [`Context::enter`], to be given back to
/// [`Context::leave`].
#[must_use]
pub struct Enter {
    trace: usize,
}

impl Enter {
    /// The trace depth at which the matching field was entered.
    pub closed spec fn depth(&self) -> nat {
        self.trace as nat
    }
}

/// One step of a traced path: a field and optionally an index into it.
#[derive(Clone, Debug, PartialEq, Eq)]
pub enum TraceStep {
    Field(String, Option<usize>),
}

/// The value of a trace step: the field name and the optional index.
pub type StepView = (Seq<char>, Option<usize>);

impl View for TraceStep {
    type V = StepView;

    open spec fn view(&self) -> StepView {
        match self {
            TraceStep::Field(f, i) => (f@, *i),
        }
    }
}

/// The value of a sequence of trace steps.
pub open spec fn steps_view(s: Seq<TraceStep>) -> Seq<StepView> {
    s.map_values(|t: TraceStep| t@)
}

/// The traced path of a reported diagnostic.
pub struct DiagnosticTrace {
    steps: Vec<TraceStep>,
}

impl View for DiagnosticTrace {
    type V = Seq<StepView>;

    closed spec fn view(&self) -> Seq<StepView> {
        steps_view(self.steps@)
    }
}

/// The decimal digit `d`.
pub open spec fn digit_char(d: nat) -> char {
    if d == 0 {
        '0'
    } else if d == 1 {
        '1'
    } else if d == 2 {
        '2'
    } else if d == 3 {
        '3'
    } else if d == 4 {
        '4'
    } else if d == 5 {
        '5'
    } else if d == 6 {
        '6'
    } else if d == 7 {
        '7'
    } else if d == 8 {
        '8'
    } else {
        '9'
    }
}

/// The decimal notation of `n`.
pub open spec fn decimal(n: nat) -> Seq<char>
    decreases n,
{
    if n < 10 {
        seq![digit_char(n)]
    } else {
        decimal(n / 10).push(digit_char(n % 10))
    }
}

/// The text of one step: the field, then its index in brackets if any.
pub open spec fn step_text(s: StepView) -> Seq<char> {
    match s.1 {
        Some(i) => s.0 + seq!['['] + decimal(i as nat) + seq![']'],
        None => s.0,
    }
}

/// The text of a trace: its steps joined by dots, as in `targets[2].format`.
pub open spec fn trace_text(steps: Seq<StepView>) -> Seq<char>
    decreases steps.len(),
{
    if steps.len() == 0 {
        Seq::empty()
    } else if steps.len() == 1 {
        step_text(steps[0])
    } else {
        trace_text(steps.drop_last()) + seq!['.'] + step_text(steps.last())
    }
}

/// The one-character text of the digit `d`.
fn digit_str(d: usize) -> (r: &'static str)
    requires
        d < 10,
    ensures
        r@ == seq![digit_char(d as nat)],
{
    proof {
        reveal_strlit("0");
        reveal_strlit("1");
        reveal_strlit("2");
        reveal_strlit("3");
        reveal_strlit("4");
        reveal_strlit("5");
        reveal_strlit("6");
        reveal_strlit("7");
        reveal_strlit("8");
        reveal_strlit("9");
    }
    match d {
        0 => "0",
        1 => "1",
        2 => "2",
        3 => "3",
        4 => "4",
        5 => "5",
        6 => "6",
        7 => "7",
        8 => "8",
        _ => "9",
    }
}

/// Append the decimal notation of `n` to `s`.
fn push_decimal(s: &mut String, n: usize)
    ensures
        final(s)@ == old(s)@ + decimal(n as nat),
    decreases n,
{
    if n >= 10 {
        push_decimal(s, n / 10);
    }
    s.append(digit_str(n % 10));
    proof {
        assert(final(s)@ =~= old(s)@ + decimal(n as nat));
    }
}

impl DiagnosticTrace {
    /// The trace as text: its steps joined by dots, each index in brackets.
    pub fn to_string(&self) -> (r: String)
        ensures
            r@ == trace_text(self@),
    {
        let mut r = String::new();
        let mut i: usize = 0;
        while i < self.steps.len()
            invariant
                i <= self.steps@.len(),
                r@ == trace_text(steps_view(self.steps@).subrange(0, i as int)),
            decreases self.steps@.len() - i,
        {
            let ghost pre = steps_view(self.steps@).subrange(0, i as int);
            let ghost post = steps_view(self.steps@).subrange(0, i + 1);
            proof {
                assert(post.drop_last() =~= pre);
                assert(post.last() == self.steps@[i as int]@);
            }
            let ghost r0 = r@;
            proof {
                reveal_strlit(".");
                reveal_strlit("[");
                reveal_strlit("]");
            }
            if i > 0 {
                r.append(".");
            }
            let ghost r1 = r@;
            proof {
                assert(i > 0 ==> r1 =~= r0 + seq!['.']);
                assert(i == 0 ==> r1 == r0);
            }
            match &self.steps[i] {
                TraceStep::Field(f, idx) => {
                    r.append(f.as_str());
                    match idx {
                        Some(n) => {
                            r.append("[");
                            push_decimal(&mut r, *n);
                            r.append("]");
                            proof {
                                assert(r@ =~= r1 + (f@ + seq!['['] + decimal(*n as nat) + seq![']']));
                            }
                        },
                        None => {},
                    }
                },
            }
            proof {
                assert(r@ =~= r1 + step_text(post.last()));
                if i == 0 {
                    assert(r0 =~= Seq::<char>::empty());
                    assert(r@ =~= trace_text(post));
                } else {
                    assert(trace_text(post) == trace_text(pre) + seq!['.'] + step_text(post.last()));
                    assert(r@ =~= trace_text(post));
                }
            }
            i = i + 1;
        }
        proof {
            assert(steps_view(self.steps@).subrange(0, i as int) =~= self@);
        }
        r
    }
}

struct StoredDiagnostic {
    /// Index of the interned trace the diagnostic was captured at.
    trace: usize,
    /// The captured diagnostic.
    diagnostic: Diagnostic,
}

/// The abstract state of a [`Context`].
pub struct ContextView {
    /// Captured diagnostics, each with the index of its interned trace.
    pub diagnostics: Seq<(int, Diagnostic)>,
    /// The current trace.
    pub trace: Seq<StepView>,
    /// The interned traces; no trace occurs twice.
    pub traces: Seq<Seq<StepView>>,
}

/// Interning `path` into `traces` leaves them as they are if the path is
/// there already, and appends it otherwise.
pub open spec fn interned_after(traces: Seq<Seq<StepView>>, path: Seq<StepView>) -> Seq<
    Seq<StepView>,
> {
    if traces.contains(path) {
        traces
    } else {
        traces.push(path)
    }
}

/// The state after capturing `d` at the current trace of `v`.
pub open spec fn capture_spec(v: ContextView, d: Diagnostic) -> ContextView {
    let traces = interned_after(v.traces, v.trace);
    ContextView {
        diagnostics: v.diagnostics.push((traces.index_of(v.trace), d)),
        trace: v.trace,
        traces,
    }
}

/// The trace after entering field `f`.
pub open spec fn enter_spec(trace: Seq<StepView>, f: Seq<char>) -> Seq<StepView> {
    trace.push((f, None))
}

/// The trace after leaving the innermost field.
pub open spec fn leave_spec(trace: Seq<StepView>) -> Seq<StepView> {
    trace.drop_last()
}

/// The trace after indexing the innermost field with `i`.
pub open spec fn index_spec(trace: Seq<StepView>, i: usize) -> Seq<StepView> {
    if trace.len() == 0 {
        trace
    } else {
        trace.update(trace.len() - 1, (trace.last().0, Some(i)))
    }
}

/// A context capable of tracing and collecting errors.
pub struct Context {
    /// Captured diagnostics.
    diagnostics: Vec<StoredDiagnostic>,
    /// The current trace.
    trace: Vec<TraceStep>,
    /// Index of the interned copy of the current trace, once known.
    stored_trace: Option<usize>,
    /// Interned traces.
    traces: Vec<Vec<TraceStep>>,
}

impl View for Context {
    type V = ContextView;

    closed spec fn view(&self) -> ContextView {
        ContextView {
            diagnostics: self.diagnostics@.map_values(
                |s: StoredDiagnostic| (s.trace as int, s.diagnostic),
            ),
            trace: steps_view(self.trace@),
            traces: self.traces@.map_values(|t: Vec<TraceStep>| steps_view(t@)),
        }
    }
}

/// A context state whose diagnostics refer to interned traces, with no
/// trace interned twice.
pub open spec fn view_wf(v: ContextView) -> bool {
    &&& v.traces.no_duplicates()
    &&& forall|i: int|
        0 <= i < v.diagnostics.len() ==> 0 <= #[trigger] v.diagnostics[i].0 < v.traces.len()
}

/// Whether two trace steps are equal.
fn step_eq(a: &TraceStep, b: &TraceStep) -> (r: bool)
    ensures
        r == (a@ == b@),
{
    match (a, b) {
        (TraceStep::Field(fa, ia), TraceStep::Field(fb, ib)) => {
            let same_index = match (ia, ib) {
                (Some(x), Some(y)) => *x == *y,
                (None, None) => true,
                _ => false,
            };
            let same_field = fa.eq(fb);
            same_index && same_field
        },
    }
}

/// Whether two traces hold the same steps.
fn steps_eq(a: &Vec<TraceStep>, b: &Vec<TraceStep>) -> (r: bool)
    ensures
        r == (steps_view(a@) == steps_view(b@)),
{
    if a.len() != b.len() {
        proof {
            assert(steps_view(a@).len() != steps_view(b@).len());
        }
        return false;
    }
    let mut i: usize = 0;
    while i < a.len()
        invariant
            a.len() == b.len(),
            i <= a.len(),
            forall|k: int| 0 <= k < i ==> a@[k]@ == b@[k]@,
        decreases a.len() - i,
    {
        if !step_eq(&a[i], &b[i]) {
            proof {
                assert(steps_view(a@)[i as int] != steps_view(b@)[i as int]);
            }
            return false;
        }
        i = i + 1;
    }
    proof {
        assert(steps_view(a@) =~= steps_view(b@));
    }
    true
}

/// A copy of a sequence of trace steps.
fn copy_steps(s: &Vec<TraceStep>) -> (r: Vec<TraceStep>)
    ensures
        steps_view(r@) == steps_view(s@),
{
    let mut r: Vec<TraceStep> = Vec::new();
    let mut i: usize = 0;
    while i < s.len()
        invariant
            i <= s.len(),
            r@.len() == i,
            forall|k: int| 0 <= k < i ==> r@[k]@ == s@[k]@,
        decreases s.len() - i,
    {
        let step = match &s[i] {
            TraceStep::Field(f, idx) => TraceStep::Field(f.clone(), *idx),
        };
        r.push(step);
        i = i + 1;
    }
    proof {
        assert(steps_view(r@) =~= steps_view(s@));
    }
    r
}

/// Entering two fields and leaving both again restores the trace that was
/// current before.
pub proof fn lemma_nested_enter_leave_restores(
    trace: Seq<StepView>,
    a: Seq<char>,
    b: Seq<char>,
)
    ensures
        leave_spec(leave_spec(enter_spec(enter_spec(trace, a), b))) == trace,
{
    assert(enter_spec(enter_spec(trace, a), b).drop_last() =~= enter_spec(trace, a));
    assert(enter_spec(trace, a).drop_last() =~= trace);
}

/// Capturing two diagnostics at the same trace interns that trace at most
/// once: both diagnostics refer to one interned record, which holds the
/// trace.
pub proof fn lemma_same_trace_shares_record(v: ContextView, d1: Diagnostic, d2: Diagnostic)
    requires
        view_wf(v),
    ensures
        ({
            let v2 = capture_spec(capture_spec(v, d1), d2);
            let n = v.diagnostics.len() as int;
            &&& view_wf(v2)
            &&& v2.traces.len() <= v.traces.len() + 1
            &&& v2.diagnostics.len() == n + 2
            &&& v2.diagnostics[n].0 == v2.diagnostics[n + 1].0
            &&& v2.traces[v2.diagnostics[n].0] == v.trace
            &&& v2.diagnostics[n].1 == d1
            &&& v2.diagnostics[n + 1].1 == d2
        }),
{
    lemma_capture_wf(v, d1);
    let v1 = capture_spec(v, d1);
    lemma_capture_wf(v1, d2);
    assert(v1.traces.contains(v.trace));
    assert(interned_after(v1.traces, v1.trace) == v1.traces);
}

/// Capturing keeps a context state well formed and records the diagnostic
/// against the interned copy of the current trace.
pub proof fn lemma_capture_wf(v: ContextView, d: Diagnostic)
    requires
        view_wf(v),
    ensures
        view_wf(capture_spec(v, d)),
        ({
            let c = capture_spec(v, d);
            let t = c.diagnostics.last().0;
            0 <= t < c.traces.len() && c.traces[t] == v.trace
        }),
{
    let traces = interned_after(v.traces, v.trace);
    if !v.traces.contains(v.trace) {
        assert(traces[v.traces.len() as int] == v.trace);
    }
    assert(traces.contains(v.trace));
    let t = traces.index_of(v.trace);
    assert(0 <= t < traces.len() && traces[t] == v.trace);
    let c = capture_spec(v, d);
    assert forall|i: int| 0 <= i < c.diagnostics.len() implies 0 <= #[trigger] c.diagnostics[i].0
        < c.traces.len() by {
        if i < v.diagnostics.len() {
            assert(c.diagnostics[i] == v.diagnostics[i]);
        }
    }
}

/// The interning table `later` keeps every trace of `earlier` at its index:
/// traces are only ever appended.
pub open spec fn traces_extend(earlier: Seq<Seq<StepView>>, later: Seq<Seq<StepView>>) -> bool {
    earlier.len() <= later.len() && later.subrange(0, earlier.len() as int) == earlier
}

/// Capturing only appends to the interning table.
pub proof fn lemma_capture_extends(v: ContextView, d: Diagnostic)
    ensures
        traces_extend(v.traces, capture_spec(v, d).traces),
{
    let t = capture_spec(v, d).traces;
    assert(t.subrange(0, v.traces.len() as int) =~= v.traces);
}

/// Appending to the interning table is transitive.
pub proof fn lemma_traces_extend_trans(
    a: Seq<Seq<StepView>>,
    b: Seq<Seq<StepView>>,
    c: Seq<Seq<StepView>>,
)
    requires
        traces_extend(a, b),
        traces_extend(b, c),
    ensures
        traces_extend(a, c),
{
    assert(c.subrange(0, a.len() as int) =~= b.subrange(0, a.len() as int));
}

/// Two captures at the same trace refer to one interned record, whatever
/// happened between them, as long as the interning table was only
/// appended to (which every operation of a context ensures). The second
/// capture interns nothing new.
pub proof fn lemma_same_trace_any_time_shares_record(
    v0: ContextView,
    d1: Diagnostic,
    v1: ContextView,
    d2: Diagnostic,
)
    requires
        view_wf(v0),
        view_wf(v1),
        v1.trace == v0.trace,
        traces_extend(capture_spec(v0, d1).traces, v1.traces),
    ensures
        ({
            let c1 = capture_spec(v0, d1);
            let c2 = capture_spec(v1, d2);
            &&& c2.traces == v1.traces
            &&& c2.diagnostics.last().0 == c1.diagnostics.last().0
            &&& c2.traces[c2.diagnostics.last().0] == v0.trace
            &&& c2.diagnostics.last().1 == d2
        }),
{
    lemma_capture_wf(v0, d1);
    let c1 = capture_spec(v0, d1);
    let t1 = c1.diagnostics.last().0;
    assert(v1.traces.subrange(0, c1.traces.len() as int)[t1] == c1.traces[t1]);
    assert(v1.traces[t1] == v0.trace);
    assert(v1.traces.contains(v1.trace));
    assert(v1.traces.index_of(v1.trace) == t1);
}

impl Context {
    /// Internal consistency: the abstract state is well formed and the
    /// cached index, if any, names the interned copy of the current trace.
    pub closed spec fn wf(&self) -> bool {
        &&& view_wf(self@)
        &&& (self.stored_trace matches Some(t) ==> t < self.traces@.len() && self@.traces[t as int]
            == self@.trace)
    }

    /// A consistent context has a well-formed abstract state, so the laws
    /// stated over [`ContextView`] apply to it.
    pub proof fn lemma_wf_view(&self)
        requires
            self.wf(),
        ensures
            view_wf(self@),
    {
    }

    /// Construct a new empty context.
    pub fn new() -> (r: Self)
        ensures
            r.wf(),
            r@.diagnostics.len() == 0,
            r@.trace.len() == 0,
            r@.traces.len() == 0,
    {
        let r = Context {
            diagnostics: Vec::new(),
            trace: Vec::new(),
            stored_trace: None,
            traces: Vec::new(),
        };
        proof {
            assert(r@.traces =~= Seq::<Seq<StepView>>::empty());
        }
        r
    }

    /// The number of interned traces.
    pub fn interned_traces(&self) -> (r: usize)
        ensures
            r == self@.traces.len(),
    {
        self.traces.len()
    }

    /// Indicate if we have diagnostics to report.
    pub fn is_empty(&self) -> (r: bool)
        ensures
            r == (self@.diagnostics.len() == 0),
    {
        self.diagnostics.len() == 0
    }

    /// Drain all diagnostics from the context, each with the trace it was
    /// captured at.
    pub fn drain(&mut self) -> (r: Vec<(Option<DiagnosticTrace>, Diagnostic)>)
        requires
            old(self).wf(),
        ensures
            final(self).wf(),
            final(self)@.diagnostics.len() == 0,
            final(self)@.trace == old(self)@.trace,
            final(self)@.traces == old(self)@.traces,
            r@.len() == old(self)@.diagnostics.len(),
            forall|i: int|
                #![trigger r@[i]]
                0 <= i < r@.len() ==> r@[i].1 == old(self)@.diagnostics[i].1 && (r@[i].0 matches Some(t) && t@
                    == old(self)@.traces[old(self)@.diagnostics[i].0]),
    {
        let mut taken: Vec<StoredDiagnostic> = Vec::new();
        std::mem::swap(&mut taken, &mut self.diagnostics);
        let ghost stored = taken@;
        let ghost n = taken@.len();
        let mut r: Vec<(Option<DiagnosticTrace>, Diagnostic)> = Vec::new();
        while taken.len() > 0
            invariant
                self.wf(),
                view_wf(old(self)@),
                self.diagnostics@.len() == 0,
                self@.trace == old(self)@.trace,
                self@.traces == old(self)@.traces,
                old(self)@.diagnostics == stored.map_values(
                    |s: StoredDiagnostic| (s.trace as int, s.diagnostic),
                ),
                n == stored.len(),
                r@.len() <= n,
                taken@ == stored.subrange(r@.len() as int, n as int),
                forall|i: int|
                    #![trigger r@[i]]
                    0 <= i < r@.len() ==> r@[i].1 == old(self)@.diagnostics[i].1 && (r@[i].0 matches Some(t) && t@
                    == old(self)@.traces[old(self)@.diagnostics[i].0]),
            decreases taken.len(),
        {
            let ghost k = r@.len() as int;
            let captured = taken.remove(0);
            proof {
                assert(stored[k] == captured);
                assert(taken@ =~= stored.subrange(k + 1, n as int));
                assert(old(self)@.diagnostics[k].0 == captured.trace as int);
                assert(view_wf(old(self)@));
            }
            let steps = copy_steps(&self.traces[captured.trace]);
            let trace = DiagnosticTrace { steps };
            r.push((Some(trace), captured.diagnostic));
        }
        proof {
            assert(self.diagnostics@ =~= Seq::<StoredDiagnostic>::empty());
        }
        r
    }

    /// All diagnostics in the context, in the order they were captured.
    pub fn iter(&self) -> (r: Vec<&Diagnostic>)
        ensures
            r@.len() == self@.diagnostics.len(),
            forall|i: int| 0 <= i < r@.len() ==> *r@[i] == #[trigger] self@.diagnostics[i].1,
    {
        let mut r: Vec<&Diagnostic> = Vec::new();
        let mut i: usize = 0;
        while i < self.diagnostics.len()
            invariant
                i <= self.diagnostics@.len(),
                r@.len() == i,
                forall|k: int| 0 <= k < i ==> *r@[k] == #[trigger] self@.diagnostics[k].1,
            decreases self.diagnostics@.len() - i,
        {
            r.push(&self.diagnostics[i].diagnostic);
            i = i + 1;
        }
        r
    }

    /// Enter a field for tracing purposes.
    pub fn enter(&mut self, field: &str) -> (r: Enter)
        requires
            old(self).wf(),
        ensures
            final(self).wf(),
            final(self)@.trace == enter_spec(old(self)@.trace, field@),
            final(self)@.diagnostics == old(self)@.diagnostics,
            final(self)@.traces == old(self)@.traces,
            r.depth() == old(self)@.trace.len(),
    {
        let expected = self.trace.len();
        self.trace.push(TraceStep::Field(field.to_owned(), None));
        self.stored_trace = None;
        proof {
            assert(self@.trace =~= enter_spec(old(self)@.trace, field@));
            assert(self@.diagnostics == old(self)@.diagnostics);
            assert(self@.traces == old(self)@.traces);
        }
        Enter { trace: expected }
    }

    /// Leave a field for tracing purposes. The token must be the one handed
    /// out when the innermost field was entered.
    pub fn leave(&mut self, enter: Enter)
        requires
            old(self).wf(),
            old(self)@.trace.len() == enter.depth() + 1,
        ensures
            final(self).wf(),
            final(self)@.trace == leave_spec(old(self)@.trace),
            final(self)@.diagnostics == old(self)@.diagnostics,
            final(self)@.traces == old(self)@.traces,
    {
        let _fragment = self.trace.pop();
        self.stored_trace = None;
        proof {
            assert(self@.trace =~= leave_spec(old(self)@.trace));
            assert(self@.diagnostics == old(self)@.diagnostics);
            assert(self@.traces == old(self)@.traces);
        }
    }

    /// Set the index of the innermost entered field. It needs no matching
    /// call to `leave`.
    pub fn index(&mut self, index: usize)
        requires
            old(self).wf(),
        ensures
            final(self).wf(),
            final(self)@.trace == index_spec(old(self)@.trace, index),
            final(self)@.diagnostics == old(self)@.diagnostics,
            final(self)@.traces == old(self)@.traces,
    {
        let n = self.trace.len();
        if n > 0 {
            let step = self.trace.pop().unwrap();
            let field = match step {
                TraceStep::Field(f, _) => f,
            };
            self.trace.push(TraceStep::Field(field, Some(index)));
        }
        self.stored_trace = None;
        proof {
            assert(self@.trace =~= index_spec(old(self)@.trace, index));
            assert(self@.diagnostics == old(self)@.diagnostics);
            assert(self@.traces == old(self)@.traces);
        }
    }

    /// Capture a diagnostic at the current trace, interning the trace.
    pub fn capture(&mut self, diagnostic: Diagnostic)
        requires
            old(self).wf(),
        ensures
            final(self).wf(),
            final(self)@ == capture_spec(old(self)@, diagnostic),
    {
        let ghost path = old(self)@.trace;
        let trace = match self.stored_trace {
            Some(t) => t,
            None => {
                let mut found: Option<usize> = None;
                let mut i: usize = 0;
                let n = self.traces.len();
                let mut searching = true;
                while searching && i < n
                    invariant
                        n == self.traces@.len(),
                        searching == (found is None),
                        self.traces@ == old(self).traces@,
                        self.trace@ == old(self).trace@,
                        path == steps_view(self.trace@),
                        i <= self.traces@.len(),
                        found matches Some(t) ==> t < self.traces@.len() && self@.traces[t as int]
                            == path,
                        found is None ==> forall|k: int| 0 <= k < i ==> self@.traces[k] != path,
                    decreases self.traces@.len() - i + (if searching { 1int } else { 0int }),
                {
                    proof {
                        assert(self@.traces[i as int] == steps_view(self.traces@[i as int]@));
                    }
                    if steps_eq(&self.traces[i], &self.trace) {
                        found = Some(i);
                        searching = false;
                    } else {
                        i = i + 1;
                    }
                }
                match found {
                    Some(t) => t,
                    None => {
                        let t = self.traces.len();
                        let copy = copy_steps(&self.trace);
                        proof {
                            assert(self.traces@.len() == i);
                            assert(!old(self)@.traces.contains(path));
                        }
                        self.traces.push(copy);
                        proof {
                            assert(self@.traces =~= old(self)@.traces.push(path));
                        }
                        t
                    },
                }
            },
        };
        self.stored_trace = Some(trace);
        self.diagnostics.push(StoredDiagnostic { trace, diagnostic });
        proof {
            let traces = interned_after(old(self)@.traces, path);
            assert(traces[trace as int] == path);
            assert(traces.contains(path));
            assert(self@.traces == traces);
            assert(traces.no_duplicates());
            assert(traces.index_of(path) == trace as int);
            assert(self@.diagnostics =~= old(self)@.diagnostics.push((trace as int, diagnostic)));
        }
    }

    /// Turn the error of a result into a captured diagnostic, returning the
    /// [`Error`] marker in its place.
    pub fn result<T>(&mut self, result: Result<T, Diagnostic>) -> (r: Result<T, Error>)
        requires
            old(self).wf(),
        ensures
            final(self).wf(),
            match result {
                Ok(v) => r matches Ok(w) && w == v && final(self)@ == old(self)@,
                Err(d) => r is Err && final(self)@ == capture_spec(old(self)@, d),
            },
    {
        match result {
            Ok(value) => Ok(value),
            Err(error) => {
                self.capture(error);
                Err(Error)
            },
        }
    }

    /// Capture a diagnostic, returning the [`Error`] marker.
    pub fn report(&mut self, error: Diagnostic) -> (r: Error)
        requires
            old(self).wf(),
        ensures
            final(self).wf(),
            final(self)@ == capture_spec(old(self)@, error),
    {
        self.capture(error);
        Error
    }

    /// Settle the outcome of a fallible block: an error stays an error, and
    /// a success while diagnostics are still pending becomes an error, so
    /// that no success hides diagnostics that were captured.
    pub fn finish_block<T>(&mut self, outcome: Result<T, Error>) -> (r: Result<T, Error>)
        ensures
            *final(self) == *old(self),
            r is Ok <==> (outcome is Ok && old(self)@.diagnostics.len() == 0),
            r matches Ok(v) ==> outcome matches Ok(w) && v == w,
    {
        let value = match outcome {
            Ok(v) => v,
            Err(e) => return Err(e),
        };
        if !self.is_empty() {
            return Err(Error);
        }
        Ok(value)
    }

    /// Run a fallible block of validation on this context. A failure of the
    /// block is passed on; a success of the block while diagnostics are
    /// pending is turned into a failure. The block is handed a consistent
    /// context and must leave it consistent.
    pub fn try_block<T, F>(&mut self, cb: F) -> (r: Result<T, Error>)
        where
            F: FnOnce(&mut Context) -> Result<T, Error>,
        requires
            old(self).wf(),
            forall|c: &mut Context| mut_ref_current(c).wf() ==> call_requires(cb, (c,)),
            forall|c: &mut Context, o: Result<T, Error>|
                call_ensures(cb, (c,), o) ==> mut_ref_future(c).wf(),
        ensures
            final(self).wf(),
            r is Ok ==> final(self)@.diagnostics.len() == 0,
            exists|c: &mut Context, o: Result<T, Error>|
                #![trigger call_ensures(cb, (c,), o)]
                mut_ref_current(c) == *old(self) && mut_ref_future(c) == *final(self)
                    && call_ensures(cb, (c,), o) && (r is Ok <==> (o is Ok
                    && final(self)@.diagnostics.len() == 0)) && (r matches Ok(v) ==> (o matches Ok(
                    w) && v == w)),
    {
        let outcome = cb(self);
        self.finish_block(outcome)
    }
}

} // verus!

