use vstd::prelude::*;
use crate::input::ButtonPlan;

verus! {

/// Abstract state of window focus: the focus history (most recently focused
/// first), the position of an Alt-Tab cycle in progress, and whether any
/// window holds focus. Windows are named by stable integer ids.
pub struct FocusModel {
    pub history: Seq<u64>,
    pub cycle: Option<usize>,
    pub active: bool,
}

/// `s` with every occurrence of `w` removed, order kept.
pub open spec fn without(s: Seq<u64>, w: u64) -> Seq<u64>
    decreases s.len(),
{
    if s.len() == 0 {
        s
    } else if s.last() == w {
        without(s.drop_last(), w)
    } else {
        without(s.drop_last(), w).push(s.last())
    }
}

/// `w` moved (or added) to the front of the history.
pub open spec fn promote(s: Seq<u64>, w: u64) -> Seq<u64> {
    seq![w] + without(s, w)
}

/// Index selected by one step of forward cycling through `n` windows.
pub open spec fn next_cycle_index(cur: Option<usize>, n: nat) -> nat {
    match cur {
        Some(i) => ((i + 1) % (n as int)) as nat,
        None => if n > 1 { 1 } else { 0 },
    }
}

/// Index selected by one step of backward cycling through `n` windows.
pub open spec fn prev_cycle_index(cur: Option<usize>, n: nat) -> nat {
    match cur {
        Some(i) => if i == 0 { if n == 0 { 0 } else { (n - 1) as nat } } else { (i - 1) as nat },
        None => if n == 0 { 0 } else { (n - 1) as nat },
    }
}

/// A window gains focus.
pub open spec fn focus_spec(m: FocusModel, w: u64) -> FocusModel {
    FocusModel { history: promote(m.history, w), cycle: m.cycle, active: true }
}

/// One step of forward cycling; the window to show is `history[cycle]`.
pub open spec fn cycle_forward_spec(m: FocusModel) -> FocusModel {
    if m.history.len() == 0 {
        m
    } else {
        let idx = next_cycle_index(m.cycle, m.history.len());
        FocusModel { history: m.history, cycle: Some(idx as usize), active: true }
    }
}

/// One step of backward cycling; the window to show is `history[cycle]`
/// when that index is still within the history.
pub open spec fn cycle_backward_spec(m: FocusModel) -> FocusModel {
    if m.history.len() == 0 {
        m
    } else {
        let idx = prev_cycle_index(m.cycle, m.history.len());
        FocusModel {
            history: m.history,
            cycle: Some(idx as usize),
            active: if idx < m.history.len() { true } else { m.active },
        }
    }
}

/// The window that cycling currently shows, if any.
pub open spec fn cycle_selection(m: FocusModel) -> Option<u64> {
    match m.cycle {
        Some(i) => if i < m.history.len() { Some(m.history[i as int]) } else { None },
        None => None,
    }
}

/// Ends cycling: the selected window becomes the most recent one.
pub open spec fn end_cycle_spec(m: FocusModel) -> FocusModel {
    match cycle_selection(m) {
        Some(w) => FocusModel { history: promote(m.history, w), cycle: None, active: m.active },
        None => FocusModel { history: m.history, cycle: None, active: m.active },
    }
}

/// A window goes away: it leaves the history.
pub open spec fn remove_spec(m: FocusModel, w: u64) -> FocusModel {
    FocusModel { history: without(m.history, w), cycle: m.cycle, active: m.active }
}

/// The window that currently holds focus.
pub open spec fn focused_spec(m: FocusModel) -> Option<u64> {
    if m.active && m.history.len() > 0 {
        Some(m.history[0])
    } else {
        None
    }
}

proof fn lemma_push_contains(s: Seq<u64>, a: u64, x: u64)
    ensures
        s.push(a).contains(x) <==> (s.contains(x) || a == x),
{
    if s.push(a).contains(x) {
        let k = choose|k: int| 0 <= k < s.push(a).len() && s.push(a)[k] == x;
        if k < s.len() {
            assert(s[k] == x);
        }
    }
    if s.contains(x) {
        let k = choose|k: int| 0 <= k < s.len() && s[k] == x;
        assert(s.push(a)[k] == x);
    }
    if a == x {
        assert(s.push(a)[s.len() as int] == x);
    }
}

proof fn lemma_without_contains(s: Seq<u64>, w: u64, x: u64)
    ensures
        without(s, w).contains(x) <==> (s.contains(x) && x != w),
    decreases s.len(),
{
    if s.len() > 0 {
        let p = s.drop_last();
        lemma_without_contains(p, w, x);
        assert(s == p.push(s.last()));
        lemma_push_contains(p, s.last(), x);
        lemma_push_contains(without(p, w), s.last(), x);
    }
}

proof fn lemma_without_unique(s: Seq<u64>, w: u64)
    requires
        s.no_duplicates(),
    ensures
        without(s, w).no_duplicates(),
    decreases s.len(),
{
    if s.len() > 0 {
        let p = s.drop_last();
        assert(p.no_duplicates()) by {
            assert forall|i: int, j: int| 0 <= i < p.len() && 0 <= j < p.len() && i != j implies p[i]
                != p[j] by {
                assert(s[i] == p[i] && s[j] == p[j]);
            }
        }
        lemma_without_unique(p, w);
        if s.last() != w {
            lemma_without_contains(p, w, s.last());
            assert(!p.contains(s.last())) by {
                if p.contains(s.last()) {
                    let k = choose|k: int| 0 <= k < p.len() && p[k] == s.last();
                    assert(s[k] == s[s.len() - 1]);
                }
            }
            let q = without(p, w);
            assert forall|i: int, j: int|
                0 <= i < q.push(s.last()).len() && 0 <= j < q.push(s.last()).len() && i != j implies q.push(
                s.last(),
            )[i] != q.push(s.last())[j] by {
                if i == q.len() {
                    assert(q.contains(q[j]));
                } else if j == q.len() {
                    assert(q.contains(q[i]));
                }
            }
        }
    }
}

proof fn lemma_without_absent(s: Seq<u64>, w: u64)
    requires
        !s.contains(w),
    ensures
        without(s, w) == s,
    decreases s.len(),
{
    if s.len() > 0 {
        assert(!s.drop_last().contains(w)) by {
            if s.drop_last().contains(w) {
                let k = choose|k: int| 0 <= k < s.drop_last().len() && s.drop_last()[k] == w;
                assert(s[k] == w);
            }
        }
        lemma_without_absent(s.drop_last(), w);
        assert(s.last() != w) by {
            assert(s[s.len() - 1] == s.last());
        }
        assert(s == s.drop_last().push(s.last()));
    }
}

proof fn lemma_promote_unique(s: Seq<u64>, w: u64)
    requires
        s.no_duplicates(),
    ensures
        promote(s, w).no_duplicates(),
{
    lemma_without_unique(s, w);
    lemma_without_contains(s, w, w);
    let q = without(s, w);
    let r = promote(s, w);
    assert forall|i: int, j: int| 0 <= i < r.len() && 0 <= j < r.len() && i != j implies r[i] != r[j] by {
        if i == 0 {
            assert(r[j] == q[j - 1]);
            assert(q.contains(q[j - 1]));
        } else if j == 0 {
            assert(r[i] == q[i - 1]);
            assert(q.contains(q[i - 1]));
        } else {
            assert(r[i] == q[i - 1] && r[j] == q[j - 1]);
        }
    }
}

proof fn lemma_without_prepend(a: u64, t: Seq<u64>, w: u64)
    ensures
        without(seq![a] + t, w) == (if a == w { without(t, w) } else { seq![a] + without(t, w) }),
    decreases t.len(),
{
    let u = seq![a] + t;
    if t.len() == 0 {
        assert(u == seq![a]);
        assert(u.drop_last() == Seq::<u64>::empty());
        assert(without(Seq::<u64>::empty(), w) == Seq::<u64>::empty());
        assert(t == Seq::<u64>::empty());
        assert(Seq::<u64>::empty().push(a) == seq![a] + Seq::<u64>::empty());
    } else {
        assert(u.last() == t.last());
        assert(u.drop_last() == seq![a] + t.drop_last());
        lemma_without_prepend(a, t.drop_last(), w);
        let x = without(t.drop_last(), w);
        assert((seq![a] + x).push(t.last()) == seq![a] + x.push(t.last()));
        if t.last() == w {
            assert(without(t, w) == x);
            assert(without(u, w) == without(seq![a] + t.drop_last(), w));
        } else {
            assert(without(t, w) == x.push(t.last()));
            assert(without(u, w) == without(seq![a] + t.drop_last(), w).push(t.last()));
        }
    }
}

proof fn lemma_without_single(s: Seq<u64>, k: int)
    requires
        s.no_duplicates(),
        0 <= k < s.len(),
    ensures
        without(s, s[k]) == s.take(k) + s.skip(k + 1),
    decreases s.len(),
{
    let w = s[k];
    let p = s.drop_last();
    if k == s.len() - 1 {
        assert(!p.contains(w)) by {
            if p.contains(w) {
                let j = choose|j: int| 0 <= j < p.len() && p[j] == w;
                assert(s[j] == s[k]);
            }
        }
        lemma_without_absent(p, w);
        assert(s.take(k) == p);
        assert(s.skip(k + 1) == Seq::<u64>::empty());
    } else {
        assert(p.no_duplicates()) by {
            assert forall|i: int, j: int| 0 <= i < p.len() && 0 <= j < p.len() && i != j implies p[i]
                != p[j] by {
                assert(s[i] == p[i] && s[j] == p[j]);
            }
        }
        assert(p[k] == w);
        lemma_without_single(p, k);
        assert(s.last() != w) by {
            assert(s[s.len() - 1] == s.last());
        }
        assert(p.take(k) + p.skip(k + 1) + seq![s.last()] == s.take(k) + s.skip(k + 1));
    }
}

/// The test "is not `w`".
pub open spec fn other_than(w: u64) -> spec_fn(u64) -> bool {
    |x: u64| x != w
}

proof fn lemma_without_is_filter(s: Seq<u64>, w: u64)
    ensures
        without(s, w) == s.filter(other_than(w)),
    decreases s.len(),
{
    if s.len() > 0 {
        let p = s.drop_last();
        lemma_without_is_filter(p, w);
        p.lemma_filter_push(s.last(), other_than(w));
        assert(p.push(s.last()) == s);
    }
}

/// Focusing a window puts it first, keeps every other window it had, adds
/// no other window, and never lets a window appear twice.
pub proof fn law_focus_puts_window_first(m: FocusModel, w: u64)
    ensures
        focus_spec(m, w).history.len() > 0,
        focus_spec(m, w).history[0] == w,
        focus_spec(m, w).active,
        forall|x: u64| #[trigger]
            focus_spec(m, w).history.contains(x) <==> (x == w || m.history.contains(x)),
        m.history.no_duplicates() ==> focus_spec(m, w).history.no_duplicates(),
{
    let r = focus_spec(m, w).history;
    assert forall|x: u64| #[trigger] r.contains(x) <==> (x == w || m.history.contains(x)) by {
        lemma_without_contains(m.history, w, x);
        assert(r == seq![w] + without(m.history, w));
        if r.contains(x) && x != w {
            let k = choose|k: int| 0 <= k < r.len() && r[k] == x;
            assert(without(m.history, w)[k - 1] == x);
        }
        if without(m.history, w).contains(x) {
            let k = choose|k: int| 0 <= k < without(m.history, w).len() && without(m.history, w)[k] == x;
            assert(r[k + 1] == x);
        }
        assert(r[0] == w);
    }
    if m.history.no_duplicates() {
        lemma_promote_unique(m.history, w);
    }
}

/// Focusing the same window twice in a row is the same as focusing it once.
pub proof fn law_focus_idempotent(m: FocusModel, w: u64)
    ensures
        focus_spec(focus_spec(m, w), w) == focus_spec(m, w),
{
    lemma_without_prepend(w, without(m.history, w), w);
    lemma_without_contains(m.history, w, w);
    lemma_without_absent(without(m.history, w), w);
}

/// Focusing a window leaves the relative order of all other windows unchanged.
pub proof fn law_focus_keeps_order_of_others(m: FocusModel, w: u64)
    ensures
        without(focus_spec(m, w).history, w) == without(m.history, w),
{
    lemma_without_prepend(w, without(m.history, w), w);
    lemma_without_contains(m.history, w, w);
    lemma_without_absent(without(m.history, w), w);
}

/// A forward cycle step and a backward cycle step undo each other.
pub proof fn law_cycle_steps_are_inverse(i: usize, n: usize)
    requires
        i < n,
    ensures
        prev_cycle_index(Some(next_cycle_index(Some(i), n as nat) as usize), n as nat) == i,
        next_cycle_index(Some(prev_cycle_index(Some(i), n as nat) as usize), n as nat) == i,
{
    if i + 1 < n {
        assert((i + 1) % (n as int) == i + 1) by (nonlinear_arith)
            requires i + 1 < n;
    } else {
        assert((i + 1) % (n as int) == 0) by (nonlinear_arith)
            requires i + 1 == n, n > 0;
    }
    if i == 0 {
        assert(((n - 1) as int + 1) % (n as int) == 0) by (nonlinear_arith)
            requires n > 0;
    } else {
        assert((i as int) % (n as int) == i) by (nonlinear_arith)
            requires 0 < i < n;
    }
}

/// Cycling never changes the focus history itself.
pub proof fn law_cycling_keeps_history(m: FocusModel)
    ensures
        cycle_forward_spec(m).history == m.history,
        cycle_backward_spec(m).history == m.history,
{
}

/// The first forward step of a cycle selects the previously focused window.
pub proof fn law_cycle_first_step_selects_previous(m: FocusModel)
    requires
        m.cycle is None,
        m.history.len() > 1,
    ensures
        cycle_selection(cycle_forward_spec(m)) == Some(m.history[1]),
{
}

/// Ending a cycle makes the selected window the most recent one and stops
/// cycling.
pub proof fn law_end_cycle_commits_selection(m: FocusModel)
    requires
        cycle_selection(m) is Some,
    ensures
        end_cycle_spec(m).history[0] == cycle_selection(m).unwrap(),
        end_cycle_spec(m).cycle is None,
        m.history.no_duplicates() ==> end_cycle_spec(m).history.no_duplicates(),
{
    if m.history.no_duplicates() {
        lemma_promote_unique(m.history, cycle_selection(m).unwrap());
    }
}

/// A quick Alt-Tab (one forward step, then release) swaps the two most
/// recently focused windows and keeps the rest in place.
pub proof fn law_quick_switch_swaps_recent_pair(m: FocusModel)
    requires
        m.cycle is None,
        m.history.len() > 1,
        m.history.no_duplicates(),
    ensures
        ({
            let h = end_cycle_spec(cycle_forward_spec(m)).history;
            &&& h.len() == m.history.len()
            &&& h[0] == m.history[1]
            &&& h[1] == m.history[0]
            &&& forall|k: int| 2 <= k < h.len() ==> h[k] == m.history[k]
        }),
{
    let s = m.history;
    lemma_without_single(s, 1);
    let h = end_cycle_spec(cycle_forward_spec(m)).history;
    assert(h == seq![s[1]] + (s.take(1) + s.skip(2)));
}

/// A removed window is gone from the history and every other window stays.
pub proof fn law_remove_forgets_window(m: FocusModel, w: u64)
    ensures
        !remove_spec(m, w).history.contains(w),
        forall|x: u64| x != w ==> (#[trigger] remove_spec(m, w).history.contains(x) <==> m.history.contains(x)),
        m.history.no_duplicates() ==> remove_spec(m, w).history.no_duplicates(),
{
    lemma_without_contains(m.history, w, w);
    assert forall|x: u64| x != w implies (#[trigger] remove_spec(m, w).history.contains(x)
        <==> m.history.contains(x)) by {
        lemma_without_contains(m.history, w, x);
    }
    if m.history.no_duplicates() {
        lemma_without_unique(m.history, w);
    }
}

/// Ending a cycle that selected the window at index `i` puts that window
/// first, followed by every other window of the history in its previous
/// order; cycling stops and the active flag is kept.
pub proof fn law_end_cycle_moves_selection_to_front(m: FocusModel, i: usize)
    requires
        m.cycle == Some(i),
        i < m.history.len(),
    ensures
        end_cycle_spec(m).history == seq![m.history[i as int]] + m.history.filter(
            other_than(m.history[i as int]),
        ),
        end_cycle_spec(m).cycle is None,
        end_cycle_spec(m).active == m.active,
{
    lemma_without_is_filter(m.history, m.history[i as int]);
}

/// Ending a cycle whose index names no window only stops cycling.
pub proof fn law_end_cycle_without_selection(m: FocusModel)
    requires
        m.cycle matches Some(i) ==> i >= m.history.len(),
    ensures
        end_cycle_spec(m).history == m.history,
        end_cycle_spec(m).cycle is None,
        end_cycle_spec(m).active == m.active,
{
}

/// Removing a window leaves exactly the other windows of the history, in
/// their previous order; the cycle position and active flag are kept.
pub proof fn law_remove_keeps_order(m: FocusModel, w: u64)
    ensures
        remove_spec(m, w).history == m.history.filter(other_than(w)),
        remove_spec(m, w).cycle == m.cycle,
        remove_spec(m, w).active == m.active,
{
    lemma_without_is_filter(m.history, w);
}

/// Focus bookkeeping for the window manager.
pub struct FocusState {
    history: Vec<u64>,
    cycle: Option<usize>,
    active: bool,
}

impl View for FocusState {
    type V = FocusModel;

    closed spec fn view(&self) -> FocusModel {
        FocusModel { history: self.history@, cycle: self.cycle, active: self.active }
    }
}

/// Builds `s` without `w`, as a new vector.
fn vec_without(s: &Vec<u64>, w: u64) -> (r: Vec<u64>)
    ensures
        r@ == without(s@, w),
{
    let mut r: Vec<u64> = Vec::new();
    let n = s.len();
    let mut i: usize = 0;
    while i < n
        invariant
            n == s.len(),
            i <= n,
            r@ == without(s@.take(i as int), w),
        decreases n - i,
    {
        assert(s@.take(i + 1).drop_last() == s@.take(i as int));
        assert(s@.take(i + 1).last() == s@[i as int]);
        if s[i] != w {
            r.push(s[i]);
        }
        i = i + 1;
    }
    assert(s@.take(n as int) == s@);
    r
}

impl FocusState {
    #[verifier::type_invariant]
    spec fn unique_history(&self) -> bool {
        self.history@.no_duplicates()
    }

    /// No window has been focused yet.
    pub fn new() -> (r: FocusState)
        ensures
            r@.history == Seq::<u64>::empty(),
            r@.cycle is None,
            !r@.active,
    {
        FocusState { history: Vec::new(), cycle: None, active: false }
    }

    /// Focus history, most recently focused first.
    pub fn history(&self) -> (r: &Vec<u64>)
        ensures
            r@ == self@.history,
            r@.no_duplicates(),
    {
        proof {
            use_type_invariant(self);
        }
        &self.history
    }

    /// Position of the Alt-Tab cycle in progress.
    pub fn cycle_state(&self) -> (r: Option<usize>)
        ensures
            r == self@.cycle,
    {
        self.cycle
    }

    /// Whether any window currently holds focus.
    pub fn active_focus(&self) -> (r: bool)
        ensures
            r == self@.active,
    {
        self.active
    }

    /// Sets whether any window holds focus, history untouched.
    pub fn set_active_focus(&mut self, active: bool)
        ensures
            final(self)@ == (FocusModel { active, ..old(self)@ }),
    {
        proof {
            use_type_invariant(&*self);
        }
        self.active = active;
    }

    /// Records that `window` gained focus: it moves to the front of the
    /// history and every other window keeps its order.
    pub fn update_focus_history(&mut self, window: u64)
        ensures
            final(self)@ == focus_spec(old(self)@, window),
            final(self)@.history.no_duplicates(),
    {
        proof {
            use_type_invariant(&*self);
            lemma_promote_unique(self.history@, window);
        }
        let rest = vec_without(&self.history, window);
        let mut h: Vec<u64> = Vec::new();
        h.push(window);
        let n = rest.len();
        let mut i: usize = 0;
        while i < n
            invariant
                n == rest.len(),
                i <= n,
                h@ == seq![window] + rest@.take(i as int),
            decreases n - i,
        {
            h.push(rest[i]);
            i = i + 1;
            assert(h@ == seq![window] + rest@.take(i as int));
        }
        assert(rest@.take(n as int) == rest@);
        self.history = h;
        self.active = true;
    }

    /// Forward Alt-Tab step. Returns the window to raise and focus.
    pub fn cycle_forward(&mut self) -> (r: Option<u64>)
        ensures
            final(self)@ == cycle_forward_spec(old(self)@),
            r == cycle_selection(final(self)@),
            old(self)@.history.len() > 0 <==> r is Some,
    {
        proof {
            use_type_invariant(&*self);
        }
        if self.history.len() == 0 {
            return None;
        }
        let n = self.history.len();
        let idx = match self.cycle {
            Some(i) => (i % n + 1) % n,
            None => if n > 1 { 1 } else { 0 },
        };
        proof {
            if let Some(i) = self.cycle {
                assert(((i as int) % (n as int) + 1) % (n as int) == (i as int + 1) % (n as int)) by (nonlinear_arith)
                    requires n > 0;
            }
        }
        self.cycle = Some(idx);
        self.active = true;
        Some(self.history[idx])
    }

    /// Backward Alt-Tab step. Returns the window to raise and focus, if the
    /// selected index still names one.
    pub fn cycle_backward(&mut self) -> (r: Option<u64>)
        ensures
            final(self)@ == cycle_backward_spec(old(self)@),
            r == cycle_selection(final(self)@),
    {
        proof {
            use_type_invariant(&*self);
        }
        if self.history.len() == 0 {
            return None;
        }
        let n = self.history.len();
        let idx = match self.cycle {
            Some(0) | None => n - 1,
            Some(i) => i - 1,
        };
        self.cycle = Some(idx);
        if idx < n {
            self.active = true;
            Some(self.history[idx])
        } else {
            None
        }
    }

    /// Ends Alt-Tab cycling: the selected window becomes the most recent.
    pub fn end_cycle(&mut self)
        ensures
            final(self)@ == end_cycle_spec(old(self)@),
            old(self)@.cycle matches Some(i) ==> (i < old(self)@.history.len()
                ==> final(self)@.history == seq![old(self)@.history[i as int]]
                + old(self)@.history.filter(other_than(old(self)@.history[i as int]))),
    {
        proof {
            use_type_invariant(&*self);
            if let Some(i) = self.cycle {
                if i < self.history.len() {
                    law_end_cycle_moves_selection_to_front(self@, i);
                }
            }
        }
        if let Some(idx) = self.cycle {
            self.cycle = None;
            if idx < self.history.len() {
                let w = self.history[idx];
                self.update_focus_history_keep_active(w);
            }
        }
    }

    /// Moves `w` to the front without touching the active flag.
    fn update_focus_history_keep_active(&mut self, w: u64)
        ensures
            final(self)@ == (FocusModel { history: promote(old(self)@.history, w), ..old(self)@ }),
    {
        proof {
            use_type_invariant(&*self);
        }
        let active = self.active;
        self.update_focus_history(w);
        self.active = active;
    }

    /// A window went away: it leaves the history.
    pub fn remove_window(&mut self, window: u64)
        ensures
            final(self)@ == remove_spec(old(self)@, window),
            final(self)@.history == old(self)@.history.filter(other_than(window)),
    {
        proof {
            use_type_invariant(&*self);
            law_remove_keeps_order(self@, window);
            lemma_without_unique(self.history@, window);
        }
        self.history = vec_without(&self.history, window);
    }

    /// The window that currently holds focus.
    pub fn focused(&self) -> (r: Option<u64>)
        ensures
            r == focused_spec(self@),
    {
        if self.active && self.history.len() > 0 {
            Some(self.history[0])
        } else {
            None
        }
    }

    /// The most recently focused window, whether or not it holds focus now.
    pub fn most_recent(&self) -> (r: Option<u64>)
        ensures
            r == (if self@.history.len() > 0 { Some(self@.history[0]) } else { None::<u64> }),
    {
        if self.history.len() > 0 {
            Some(self.history[0])
        } else {
            None
        }
    }

    /// The window a close request goes to: the most recently focused one,
    /// else the last mapped window.
    pub fn close_target(&self, mapped: &Vec<u64>) -> (r: Option<u64>)
        ensures
            r == (if self@.history.len() > 0 {
                Some(self@.history[0])
            } else if mapped@.len() > 0 {
                Some(mapped@.last())
            } else {
                None::<u64>
            }),
    {
        if self.history.len() > 0 {
            Some(self.history[0])
        } else if mapped.len() > 0 {
            Some(mapped[mapped.len() - 1])
        } else {
            None
        }
    }
}

/// Where keyboard focus goes after a pointer button event.
#[derive(Debug, Clone, Copy, PartialEq, Eq, Structural)]
pub enum KeyboardFocus {
    /// Keyboard focus stays where it was.
    Keep,
    /// Keyboard focus moves to this window.
    Window(u64),
    /// No window has keyboard focus.
    Clear,
}

/// What a pointer button event does to windows besides the focus history.
#[derive(Debug, Clone, Copy, PartialEq, Eq)]
pub struct ButtonEffect {
    /// The window raised to the top of the stack, if any.
    pub raise: Option<u64>,
    /// Where keyboard focus goes.
    pub keyboard: KeyboardFocus,
    /// Whether every window is told it is no longer activated.
    pub deactivate_all: bool,
}

/// The effect of a button plan on windows: a move or resize grab gives the
/// grabbed window keyboard focus; a click on a window raises it and gives it
/// keyboard focus; a click on empty canvas deactivates every window and
/// clears keyboard focus; nothing else touches them.
pub open spec fn button_effect_spec(plan: ButtonPlan) -> ButtonEffect {
    match plan {
        ButtonPlan::StartMove(w) => ButtonEffect {
            raise: None,
            keyboard: KeyboardFocus::Window(w),
            deactivate_all: false,
        },
        ButtonPlan::StartResize(w) => ButtonEffect {
            raise: None,
            keyboard: KeyboardFocus::Window(w),
            deactivate_all: false,
        },
        ButtonPlan::FocusAndForward(w) => ButtonEffect {
            raise: Some(w),
            keyboard: KeyboardFocus::Window(w),
            deactivate_all: false,
        },
        ButtonPlan::ClearFocusAndForward => ButtonEffect {
            raise: None,
            keyboard: KeyboardFocus::Clear,
            deactivate_all: true,
        },
        _ => ButtonEffect { raise: None, keyboard: KeyboardFocus::Keep, deactivate_all: false },
    }
}

/// The focus model after a button plan is carried out: a click on a window
/// records it in the focus history, and a click on empty canvas leaves no
/// window holding focus (the history is kept).
pub open spec fn button_focus_spec(m: FocusModel, plan: ButtonPlan) -> FocusModel {
    match plan {
        ButtonPlan::FocusAndForward(w) => focus_spec(m, w),
        ButtonPlan::ClearFocusAndForward => FocusModel { active: false, ..m },
        _ => m,
    }
}

/// After a click on empty canvas no window is reported as focused, while the
/// focus history stays as it was.
pub proof fn law_empty_click_clears_focus(m: FocusModel)
    ensures
        focused_spec(button_focus_spec(m, ButtonPlan::ClearFocusAndForward)) is None,
        button_focus_spec(m, ButtonPlan::ClearFocusAndForward).history == m.history,
{
}

impl FocusState {
    /// Carries out the focus side of a pointer button plan and says what it
    /// asks of the windows.
    pub fn apply_button_plan(&mut self, plan: ButtonPlan) -> (r: ButtonEffect)
        ensures
            final(self)@ == button_focus_spec(old(self)@, plan),
            r == button_effect_spec(plan),
    {
        match plan {
            ButtonPlan::StartMove(w) => ButtonEffect {
                raise: None,
                keyboard: KeyboardFocus::Window(w),
                deactivate_all: false,
            },
            ButtonPlan::StartResize(w) => ButtonEffect {
                raise: None,
                keyboard: KeyboardFocus::Window(w),
                deactivate_all: false,
            },
            ButtonPlan::FocusAndForward(w) => {
                self.update_focus_history(w);
                ButtonEffect { raise: Some(w), keyboard: KeyboardFocus::Window(w), deactivate_all: false }
            },
            ButtonPlan::ClearFocusAndForward => {
                self.set_active_focus(false);
                ButtonEffect { raise: None, keyboard: KeyboardFocus::Clear, deactivate_all: true }
            },
            _ => ButtonEffect { raise: None, keyboard: KeyboardFocus::Keep, deactivate_all: false },
        }
    }
}

/// What toggling fullscreen does.
#[derive(Debug, Clone, Copy, PartialEq, Eq, Structural)]
pub enum FullscreenStep {
    /// Leave fullscreen: restore this window's saved place, size and camera.
    Restore(u64),
    /// Make this window fullscreen, saving its place, size and the camera.
    Enter(u64),
    /// No window to act on.
    Nothing,
}

/// Decides what toggling fullscreen does: a fullscreen window is restored;
/// otherwise the most recently focused window, if any, goes fullscreen.
pub fn fullscreen_step(fullscreen: Option<u64>, most_recent: Option<u64>) -> (r: FullscreenStep)
    ensures
        fullscreen matches Some(w) ==> r == FullscreenStep::Restore(w),
        fullscreen is None ==> r == match most_recent {
            Some(w) => FullscreenStep::Enter(w),
            None => FullscreenStep::Nothing,
        },
{
    match fullscreen {
        Some(w) => FullscreenStep::Restore(w),
        None => match most_recent {
            Some(w) => FullscreenStep::Enter(w),
            None => FullscreenStep::Nothing,
        },
    }
}

} // verus!
