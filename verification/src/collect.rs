use vstd::prelude::*;
use std::collections::HashMap;
use vstd::std_specs::hash::spec_keys_iter;
use vstd::std_specs::iter::IteratorSpec;
use crate::codes::VarType;
use crate::hier::Hier;
use vstd::string::StrSliceExecFns;
use vstd::string::StringExecFns;

verus! {

broadcast use vstd::std_specs::hash::group_hash_axioms;

/// The characters of each string of a list.
pub open spec fn strings_view(v: Seq<String>) -> Seq<Seq<char>> {
    v.map_values(|s: String| s@)
}

/// What a trace holds: its hierarchical name, its type, its width and its timed values.
pub type TraceView = (Seq<Seq<char>>, VarType, usize, Seq<(u64, Seq<char>)>);

/// What a walk of the hierarchy holds: the scope path it is in, the traces it has found
/// by handle, and the aliases it has found with their handles.
pub type WalkView = (Seq<Seq<char>>, Map<u32, TraceView>, Seq<(Seq<Seq<char>>, u32)>);

/// A variable chosen for display, with the values it takes over time.
pub struct Trace {
    /// The names of the enclosing scopes, outermost first, then the variable's own name.
    pub name: Vec<String>,
    pub typ: VarType,
    pub size: usize,
    /// Each change of the value, with its time, in the order the file gives them.
    pub data: Vec<(u64, String)>,
}

impl View for Trace {
    type V = TraceView;

    open spec fn view(&self) -> TraceView {
        (
            strings_view(self.name@),
            self.typ,
            self.size,
            self.data@.map_values(|p: (u64, String)| (p.0, p.1@)),
        )
    }
}

/// Which variables to keep: those of one scope path, or of any, and parameters or not.
pub struct VarFilter {
    pub scope: Option<Vec<String>>,
    pub include_params: bool,
}

impl VarFilter {
    /// Whether a variable of type `typ`, declared at scope path `scope`, is kept.
    pub open spec fn spec_accepts(&self, scope: Seq<Seq<char>>, typ: VarType) -> bool {
        &&& match self.scope {
            Option::Some(s) => strings_view(s@) == scope,
            Option::None => true,
        }
        &&& (self.include_params || typ != VarType::VcdParameter)
    }

    /// Whether a variable of type `typ`, declared at scope path `scope`, is kept.
    pub fn accepts(&self, scope: &Vec<String>, typ: VarType) -> (r: bool)
        ensures
            r == self.spec_accepts(strings_view(scope@), typ),
    {
        let in_scope = match &self.scope {
            Option::Some(s) => strings_eq(s, scope),
            Option::None => true,
        };
        in_scope && (self.include_params || typ != VarType::VcdParameter)
    }
}

/// Whether two lists of strings are equal, string by string.
fn strings_eq(a: &Vec<String>, b: &Vec<String>) -> (r: bool)
    ensures
        r == (strings_view(a@) == strings_view(b@)),
{
    if a.len() != b.len() {
        assert(strings_view(a@).len() != strings_view(b@).len());
        return false;
    }
    let mut i: usize = 0;
    while i < a.len()
        invariant
            a.len() == b.len(),
            i <= a.len(),
            forall|j: int| 0 <= j < i ==> a@[j]@ == b@[j]@,
        decreases a.len() - i,
    {
        if a[i] != b[i] {
            assert(strings_view(a@)[i as int] != strings_view(b@)[i as int]);
            return false;
        }
        i = i + 1;
    }
    assert(strings_view(a@) =~= strings_view(b@));
    true
}

/// The walk after one more entry of the hierarchy: a scope is entered, an upscope leaves
/// the innermost scope (if any), a kept variable becomes a trace or an alias, and
/// anything else changes nothing.
pub open spec fn step(w: WalkView, h: Hier, filter: VarFilter) -> WalkView {
    match h {
        Hier::Scope(s) => (w.0.push(s.name@), w.1, w.2),
        Hier::Upscope => (
            if w.0.len() > 0 {
                w.0.drop_last()
            } else {
                w.0
            },
            w.1,
            w.2,
        ),
        Hier::Var(v) => if filter.spec_accepts(w.0, v.typ) {
            let name = w.0.push(v.name@);
            if v.is_alias {
                (w.0, w.1, w.2.push((name, v.handle)))
            } else {
                (w.0, w.1.insert(v.handle, (name, v.typ, v.length as usize, Seq::empty())), w.2)
            }
        } else {
            w
        },
        _ => w,
    }
}

/// The walk after all entries of `hs`, from the top of the hierarchy.
pub open spec fn walk(hs: Seq<Hier>, filter: VarFilter) -> WalkView
    decreases hs.len(),
{
    if hs.len() == 0 {
        (Seq::empty(), Map::empty(), Seq::empty())
    } else {
        step(walk(hs.drop_last(), filter), hs.last(), filter)
    }
}

/// The state of a walk through the hierarchy of a waveform file.
pub struct Walk {
    pub scope: Vec<String>,
    pub vars: HashMap<u32, Trace>,
    pub aliases: Vec<(Vec<String>, u32)>,
}

impl View for Walk {
    type V = WalkView;

    open spec fn view(&self) -> WalkView {
        (
            strings_view(self.scope@),
            self.vars@.map_values(|t: Trace| t@),
            self.aliases@.map_values(|a: (Vec<String>, u32)| (strings_view(a.0@), a.1)),
        )
    }
}

impl Walk {
    /// A walk at the top of the hierarchy that has found nothing yet.
    pub fn new() -> (r: Walk)
        ensures
            r@ == (Seq::<Seq<char>>::empty(), Map::<u32, TraceView>::empty(), Seq::<
                (Seq<Seq<char>>, u32),
            >::empty()),
    {
        let r = Walk { scope: Vec::new(), vars: HashMap::new(), aliases: Vec::new() };
        assert(r@.0 =~= Seq::empty());
        assert(r@.1 =~= Map::empty());
        assert(r@.2 =~= Seq::empty());
        r
    }

    /// The handles of the traces found, each once: the variables whose values to read.
    pub fn limit_keys(&self) -> (r: Vec<u32>)
        ensures
            r@.no_duplicates(),
            forall|h: u32| r@.contains(h) <==> self@.1.contains_key(h),
    {
        let mut r: Vec<u32> = Vec::new();
        for k in it: self.vars.keys()
            invariant
                r@ == it.seq().take(it.index() as int).map_values(|k: &u32| *k),
        {
            r.push(*k);
            assert(r@ =~= it.seq().take(it.index() + 1).map_values(|k: &u32| *k));
        }
        let ghost keys = spec_keys_iter(&self.vars).remaining();
        assert(r@ =~= keys.unref());
        assert forall|h: u32| r@.contains(h) <==> self@.1.contains_key(h) by {
            assert(keys.unref().to_set().contains(h) == self.vars@.dom().contains(h));
        }
        r
    }

    /// Takes one more entry of the hierarchy into account.
    pub fn visit(&mut self, h: &Hier, filter: &VarFilter)
        ensures
            final(self)@ == step(old(self)@, *h, *filter),
    {
        match h {
            Hier::Scope(s) => {
                self.scope.push(s.name.clone());
                assert(strings_view(self.scope@) =~= strings_view(old(self).scope@).push(s.name@));
            },
            Hier::Upscope => {
                self.scope.pop();
                assert(strings_view(self.scope@) =~= if old(self).scope@.len() > 0 {
                    strings_view(old(self).scope@).drop_last()
                } else {
                    strings_view(old(self).scope@)
                });
            },
            Hier::Var(v) => {
                if filter.accepts(&self.scope, v.typ) {
                    let mut name = self.scope.clone();
                    name.push(v.name.clone());
                    assert(strings_view(name@) =~= strings_view(self.scope@).push(v.name@));
                    if v.is_alias {
                        self.aliases.push((name, v.handle));
                        assert(self@.2 =~= old(self)@.2.push((strings_view(name@), v.handle)));
                    } else {
                        let t = Trace { name, typ: v.typ, size: v.length as usize, data: Vec::new() };
                        assert(t@.3 =~= Seq::empty());
                        self.vars.insert(v.handle, t);
                        assert(self@.1 =~= old(self)@.1.insert(v.handle, t@));
                    }
                }
            },
            Hier::Attr(_) => {},
            Hier::AttrEnd => {},
        }
    }
}

/// Whether a sequence of times is strictly increasing: sorted, with no time twice.
pub open spec fn strictly_increasing(s: Seq<u64>) -> bool {
    forall|i: int, j: int| 0 <= i < j < s.len() ==> s[i] < s[j]
}

/// Puts a time into a strictly increasing list of times, where it is not there yet.
fn insert_time(v: &mut Vec<u64>, t: u64)
    requires
        strictly_increasing(old(v)@),
    ensures
        strictly_increasing(final(v)@),
        forall|x: u64| final(v)@.contains(x) <==> (old(v)@.contains(x) || x == t),
{
    let n = v.len();
    if n == 0 || v[n - 1] < t {
        v.push(t);
        assert forall|x: u64| v@.contains(x) <==> (old(v)@.contains(x) || x == t) by {
            if old(v)@.contains(x) {
                let k = choose|k: int| 0 <= k < old(v)@.len() && old(v)@[k] == x;
                assert(v@[k] == x);
            }
            if x == t {
                assert(v@[n as int] == x);
            }
            if v@.contains(x) {
                let k = choose|k: int| 0 <= k < v@.len() && v@[k] == x;
                if k < n {
                    assert(old(v)@[k] == x);
                }
            }
        }
        return;
    }
    let mut p: usize = 0;
    while v[p] < t
        invariant
            v@ == old(v)@,
            n == v@.len(),
            n > 0,
            v@[n - 1] >= t,
            p < n,
            forall|k: int| 0 <= k < p ==> v@[k] < t,
        decreases n - p,
    {
        p = p + 1;
    }
    if v[p] == t {
        assert(v@[p as int] == t);
        return;
    }
    v.insert(p, t);
    assert forall|x: u64| v@.contains(x) <==> (old(v)@.contains(x) || x == t) by {
        if old(v)@.contains(x) {
            let k = choose|k: int| 0 <= k < old(v)@.len() && old(v)@[k] == x;
            if k < p {
                assert(v@[k] == x);
            } else {
                assert(v@[k + 1] == x);
            }
        }
        if x == t {
            assert(v@[p as int] == x);
        }
        if v@.contains(x) {
            let k = choose|k: int| 0 <= k < v@.len() && v@[k] == x;
            if k < p {
                assert(old(v)@[k] == x);
            } else if k > p {
                assert(old(v)@[k - 1] == x);
            }
        }
    }
}

/// Whether a time lies in the window shown: from `start` on, and before `end`.
pub open spec fn in_window(t: u64, start: u64, end: u64) -> bool {
    start <= t && t < end
}

/// A change of a value as the reader reports it: its time, the handle of the variable,
/// and the new value.
pub type Change = (u64, u32, String);

/// The timed values that the changes of `blocks` inside the window give the trace with
/// handle `h`, in the order of `blocks`.
pub open spec fn recorded(blocks: Seq<Change>, start: u64, end: u64, h: u32) -> Seq<(u64, Seq<char>)>
    decreases blocks.len(),
{
    if blocks.len() == 0 {
        Seq::empty()
    } else {
        let prev = recorded(blocks.drop_last(), start, end, h);
        let b = blocks.last();
        if in_window(b.0, start, end) && b.1 == h {
            prev.push((b.0, b.2@))
        } else {
            prev
        }
    }
}

/// Whether `t` is a time to mark on the time axis: an end of the window, or the time of
/// a change inside it.
pub open spec fn is_crit_time(blocks: Seq<Change>, start: u64, end: u64, t: u64) -> bool {
    ||| t == start
    ||| t == end
    ||| exists|i: int| 0 <= i < blocks.len() && blocks[i].0 == t && in_window(t, start, end)
}

/// Whether every change inside the window is of a variable that has a trace.
pub open spec fn changes_known(
    blocks: Seq<Change>,
    start: u64,
    end: u64,
    vars: Map<u32, TraceView>,
) -> bool {
    forall|i: int|
        0 <= i < blocks.len() && in_window(#[trigger] blocks[i].0, start, end) ==> vars.contains_key(
            blocks[i].1,
        )
}

/// The traces read from a waveform file, and the times to mark on the time axis.
pub struct Fst {
    pub vars: HashMap<u32, Trace>,
    /// Strictly increasing.
    pub crit_time: Vec<u64>,
}

/// The last time to show: the limit asked for, if any, but no later than the file's end.
pub open spec fn spec_end_time(max_time: Option<u64>, file_end: u64) -> u64 {
    let m = match max_time {
        Option::Some(m) => m,
        Option::None => file_end,
    };
    if m < file_end {
        m
    } else {
        file_end
    }
}

/// The last time to show: the limit asked for, if any, but no later than the file's end.
pub fn end_time(max_time: Option<u64>, file_end: u64) -> (r: u64)
    ensures
        r == spec_end_time(max_time, file_end),
{
    let m = match max_time {
        Option::Some(m) => m,
        Option::None => file_end,
    };
    if m < file_end {
        m
    } else {
        file_end
    }
}

impl Walk {
    /// Adds to the traces the changes that lie in the window from `start_time` to
    /// `end_time`, and collects the times to mark.
    pub fn finish(self, start_time: u64, end_time: u64, blocks: &Vec<Change>) -> (r: Fst)
        requires
            changes_known(blocks@, start_time, end_time, self@.1),
        ensures
            r.vars@.dom() == self@.1.dom(),
            forall|h: u32|
                #![trigger r.vars@[h]]
                self@.1.contains_key(h) ==> r.vars@[h]@ == (
                    self@.1[h].0,
                    self@.1[h].1,
                    self@.1[h].2,
                    self@.1[h].3 + recorded(blocks@, start_time, end_time, h),
                ),
            strictly_increasing(r.crit_time@),
            forall|t: u64| r.crit_time@.contains(t) <==> is_crit_time(blocks@, start_time, end_time, t),
    {
        let ghost w = self@.1;
        let mut vars = self.vars;
        let mut crit: Vec<u64> = Vec::new();
        insert_time(&mut crit, start_time);
        insert_time(&mut crit, end_time);
        let mut i: usize = 0;
        while i < blocks.len()
            invariant
                i <= blocks.len(),
                changes_known(blocks@, start_time, end_time, w),
                vars@.dom() == w.dom(),
                forall|h: u32|
                    #![trigger vars@[h]]
                    w.contains_key(h) ==> vars@[h]@ == (
                        w[h].0,
                        w[h].1,
                        w[h].2,
                        w[h].3 + recorded(blocks@.take(i as int), start_time, end_time, h),
                    ),
                strictly_increasing(crit@),
                forall|t: u64|
                    crit@.contains(t) <==> is_crit_time(
                        blocks@.take(i as int),
                        start_time,
                        end_time,
                        t,
                    ),
            decreases blocks.len() - i,
        {
            let ghost prefix = blocks@.take(i as int);
            let ghost next = blocks@.take(i + 1);
            assert(next.drop_last() =~= prefix);
            let t = blocks[i].0;
            let h = blocks[i].1;
            if start_time <= t && t < end_time {
                insert_time(&mut crit, t);
                assert(w.contains_key(h));
                let ghost before = vars@;
                match vars.remove(&h) {
                    Option::Some(mut tr) => {
                        let ghost old_data = tr@.3;
                        tr.data.push((t, blocks[i].2.clone()));
                        assert(tr@.3 =~= old_data.push((t, blocks@[i as int].2@)));
                        vars.insert(h, tr);
                    },
                    Option::None => {},
                }
                assert forall|g: u32| #![trigger vars@[g]] w.contains_key(g) implies vars@[g]@ == (
                    w[g].0,
                    w[g].1,
                    w[g].2,
                    w[g].3 + recorded(next, start_time, end_time, g),
                ) by {
                    if g != h {
                        assert(vars@[g] == before[g]);
                    } else {
                        assert((w[g].3 + recorded(prefix, start_time, end_time, g)).push(
                            (t, blocks@[i as int].2@),
                        ) =~= w[g].3 + recorded(next, start_time, end_time, g));
                    }
                }
            }
            assert forall|x: u64|
                crit@.contains(x) <==> is_crit_time(next, start_time, end_time, x) by {
                assert(next[i as int] == blocks@[i as int]);
                if is_crit_time(next, start_time, end_time, x) && x != start_time && x != end_time {
                    let k = choose|k: int|
                        0 <= k < next.len() && next[k].0 == x && in_window(x, start_time, end_time);
                    if k < i {
                        assert(prefix[k] == next[k]);
                    }
                }
                if is_crit_time(prefix, start_time, end_time, x) && x != start_time && x
                    != end_time {
                    let k = choose|k: int|
                        0 <= k < prefix.len() && prefix[k].0 == x && in_window(
                            x,
                            start_time,
                            end_time,
                        );
                    assert(next[k] == prefix[k]);
                }
            }
            i = i + 1;
        }
        assert(blocks@.take(blocks.len() as int) =~= blocks@);
        Fst { vars, crit_time: crit }
    }
}

/// The traces that the walk of `hs` finds carry no values yet.
proof fn lemma_walk_traces_empty(hs: Seq<Hier>, filter: VarFilter)
    ensures
        forall|h: u32| #[trigger]
            walk(hs, filter).1.contains_key(h) ==> walk(hs, filter).1[h].3 == Seq::<
                (u64, Seq<char>),
            >::empty(),
    decreases hs.len(),
{
    if hs.len() > 0 {
        lemma_walk_traces_empty(hs.drop_last(), filter);
        let w = walk(hs.drop_last(), filter);
        assert(walk(hs, filter) == step(w, hs.last(), filter));
        match hs.last() {
            Hier::Var(v) => {
                assert forall|h: u32| #[trigger]
                    walk(hs, filter).1.contains_key(h) implies walk(hs, filter).1[h].3 == Seq::<
                    (u64, Seq<char>),
                >::empty() by {
                    if h != v.handle {
                        assert(w.1.contains_key(h));
                    }
                }
            },
            _ => {},
        }
    }
}

/// Reads the traces that `filter` keeps out of the hierarchy `hiers`, with the changes of
/// their values that `blocks` reports inside the window from `start_time` to the end time
/// (`max_time`, if given, but no later than `file_end_time`), and the times to mark.
pub fn clib(
    hiers: &Vec<Hier>,
    filter: &VarFilter,
    max_time: Option<u64>,
    start_time: u64,
    file_end_time: u64,
    blocks: &Vec<Change>,
) -> (r: Fst)
    requires
        changes_known(
            blocks@,
            start_time,
            spec_end_time(max_time, file_end_time),
            walk(hiers@, *filter).1,
        ),
    ensures
        r.vars@.dom() == walk(hiers@, *filter).1.dom(),
        forall|h: u32|
            #![trigger r.vars@[h]]
            walk(hiers@, *filter).1.contains_key(h) ==> r.vars@[h]@ == (
                walk(hiers@, *filter).1[h].0,
                walk(hiers@, *filter).1[h].1,
                walk(hiers@, *filter).1[h].2,
                recorded(blocks@, start_time, spec_end_time(max_time, file_end_time), h),
            ),
        strictly_increasing(r.crit_time@),
        forall|t: u64|
            r.crit_time@.contains(t) <==> is_crit_time(
                blocks@,
                start_time,
                spec_end_time(max_time, file_end_time),
                t,
            ),
{
    let mut w = Walk::new();
    let mut i: usize = 0;
    while i < hiers.len()
        invariant
            i <= hiers.len(),
            w@ == walk(hiers@.take(i as int), *filter),
        decreases hiers.len() - i,
    {
        assert(hiers@.take(i + 1).drop_last() =~= hiers@.take(i as int));
        w.visit(&hiers[i], filter);
        i = i + 1;
    }
    assert(hiers@.take(hiers.len() as int) =~= hiers@);
    proof {
        lemma_walk_traces_empty(hiers@, *filter);
    }
    let end = end_time(max_time, file_end_time);
    let r = w.finish(start_time, end, blocks);
    assert forall|h: u32| #![trigger r.vars@[h]] walk(hiers@, *filter).1.contains_key(h) implies r.vars@[h]@ == (
        walk(hiers@, *filter).1[h].0,
        walk(hiers@, *filter).1[h].1,
        walk(hiers@, *filter).1[h].2,
        recorded(blocks@, start_time, end, h),
    ) by {
        assert(Seq::<(u64, Seq<char>)>::empty() + recorded(blocks@, start_time, end, h) =~= recorded(blocks@, start_time, end, h));
    }
    r
}

/// Entering a scope and leaving it again brings a walk back to where it was.
pub proof fn law_scope_then_upscope(w: WalkView, s: crate::hier::Scope, filter: VarFilter)
    ensures
        step(step(w, Hier::Scope(s), filter), Hier::Upscope, filter) == w,
{
    assert(w.0.push(s.name@).drop_last() =~= w.0);
}

/// An upscope at the top of the hierarchy changes nothing.
pub proof fn law_upscope_at_top(w: WalkView, filter: VarFilter)
    requires
        w.0.len() == 0,
    ensures
        step(w, Hier::Upscope, filter) == w,
{
}

/// Every value a trace is given lies inside the window, and comes from a change of that
/// trace's handle.
pub proof fn law_recorded_in_window(blocks: Seq<Change>, start: u64, end: u64, h: u32)
    ensures
        forall|j: int|
            0 <= j < recorded(blocks, start, end, h).len() ==> in_window(
                #[trigger] recorded(blocks, start, end, h)[j].0,
                start,
                end,
            ),
        forall|j: int|
            0 <= j < recorded(blocks, start, end, h).len() ==> exists|i: int|
                0 <= i < blocks.len() && blocks[i].1 == h && blocks[i].0 == #[trigger] recorded(
                    blocks,
                    start,
                    end,
                    h,
                )[j].0,
    decreases blocks.len(),
{
    if blocks.len() > 0 {
        let prev = blocks.drop_last();
        law_recorded_in_window(prev, start, end, h);
        assert forall|j: int|
            0 <= j < recorded(blocks, start, end, h).len() implies exists|i: int|
                0 <= i < blocks.len() && blocks[i].1 == h && blocks[i].0 == #[trigger] recorded(
                    blocks,
                    start,
                    end,
                    h,
                )[j].0 by {
            if j < recorded(prev, start, end, h).len() {
                let i = choose|i: int|
                    0 <= i < prev.len() && prev[i].1 == h && prev[i].0 == recorded(prev, start, end, h)[j].0;
                assert(blocks[i] == prev[i]);
            } else {
                assert(blocks[blocks.len() - 1].0 == recorded(blocks, start, end, h)[j].0);
            }
        }
    }
}

/// The pieces of a text between its dots, as splitting at each `.` gives them: one more
/// piece than there are dots, empty pieces included.
pub open spec fn split_dots(s: Seq<char>) -> Seq<Seq<char>>
    decreases s.len(),
{
    if s.len() == 0 {
        seq![Seq::empty()]
    } else {
        let rest = split_dots(s.drop_last());
        if s.last() == '.' {
            rest.push(Seq::empty())
        } else {
            rest.update(rest.len() - 1, rest.last().push(s.last()))
        }
    }
}

proof fn lemma_split_dots_nonempty(s: Seq<char>)
    ensures
        split_dots(s).len() >= 1,
    decreases s.len(),
{
    if s.len() > 0 {
        lemma_split_dots_nonempty(s.drop_last());
    }
}

/// The scope path that a dotted name such as `top.cpu.alu` stands for.
pub fn scope_path(text: &str) -> (r: Vec<String>)
    ensures
        strings_view(r@) == split_dots(text@),
{
    let n = text.unicode_len();
    let mut out: Vec<String> = Vec::new();
    let mut start: usize = 0;
    let mut i: usize = 0;
    assert(strings_view(out@) + seq![text@.subrange(0, 0)] =~~= split_dots(text@.take(0)));
    while i < n
        invariant
            n == text@.len(),
            start <= i <= n,
            strings_view(out@) + seq![text@.subrange(start as int, i as int)] == split_dots(
                text@.take(i as int),
            ),
        decreases n - i,
    {
        let c = text.get_char(i);
        let ghost prefix = text@.take(i as int);
        assert(text@.take(i + 1).drop_last() =~= prefix);
        proof {
            lemma_split_dots_nonempty(prefix);
        }
        assert(text@.take(i + 1).last() == c);
        if c == '.' {
            let piece = String::from_str(text.substring_char(start, i));
            let ghost before = strings_view(out@);
            out.push(piece);
            assert(strings_view(out@) =~= before.push(text@.subrange(start as int, i as int)));
            start = i + 1;
            assert(strings_view(out@) + seq![text@.subrange(start as int, i + 1)] =~~= split_dots(
                text@.take(i + 1),
            ));
        } else {
            assert(text@.subrange(start as int, i + 1) =~= text@.subrange(start as int, i as int).push(c));
            assert(strings_view(out@) + seq![text@.subrange(start as int, i + 1)] =~= split_dots(
                text@.take(i + 1),
            ));
        }
        i = i + 1;
    }
    let last = String::from_str(text.substring_char(start, n));
    out.push(last);
    assert(text@.take(n as int) =~= text@);
    assert(strings_view(out@) =~= split_dots(text@));
    out
}

/// A limit at or past the file's end is no limit: the window, the values each trace is
/// given and the times marked are those of no limit at all.
pub proof fn law_limit_past_end_is_no_limit(
    blocks: Seq<Change>,
    start: u64,
    max_time: u64,
    file_end: u64,
    h: u32,
    t: u64,
)
    requires
        max_time >= file_end,
    ensures
        spec_end_time(Option::Some(max_time), file_end) == spec_end_time(Option::None, file_end),
        recorded(blocks, start, spec_end_time(Option::Some(max_time), file_end), h) == recorded(
            blocks,
            start,
            spec_end_time(Option::None, file_end),
            h,
        ),
        is_crit_time(blocks, start, spec_end_time(Option::Some(max_time), file_end), t)
            == is_crit_time(blocks, start, spec_end_time(Option::None, file_end), t),
        forall|vars: Map<u32, TraceView>|
            changes_known(blocks, start, spec_end_time(Option::Some(max_time), file_end), vars)
                == changes_known(blocks, start, spec_end_time(Option::None, file_end), vars),
{
}

/// A filter with a scope limit keeps a variable only where its scope path is that limit,
/// name by name over the whole path; without parameters, it never keeps a parameter.
pub proof fn law_filter_matches_whole_path(
    filter: VarFilter,
    scope: Seq<Seq<char>>,
    typ: VarType,
)
    ensures
        filter.scope matches Option::Some(s) ==> (filter.spec_accepts(scope, typ) ==> scope.len()
            == s@.len() && forall|j: int| 0 <= j < scope.len() ==> #[trigger] scope[j] == s@[j]@),
        filter.scope matches Option::Some(s) ==> ((exists|j: int|
            0 <= j < scope.len() && j < s@.len() && #[trigger] scope[j] != s@[j]@)
            ==> !filter.spec_accepts(scope, typ)),
        filter.scope is None && filter.include_params ==> filter.spec_accepts(scope, typ),
        !filter.include_params && typ == VarType::VcdParameter ==> !filter.spec_accepts(scope, typ),
{
    if let Option::Some(s) = filter.scope {
        if filter.spec_accepts(scope, typ) {
            assert forall|j: int| 0 <= j < scope.len() implies #[trigger] scope[j] == s@[j]@ by {
                assert(strings_view(s@)[j] == s@[j]@);
            }
        }
        if exists|j: int| 0 <= j < scope.len() && j < s@.len() && #[trigger] scope[j] != s@[j]@ {
            let j = choose|j: int| 0 <= j < scope.len() && j < s@.len() && #[trigger] scope[j] != s@[j]@;
            assert(strings_view(s@)[j] == s@[j]@);
        }
    }
}

/// Every trace that a walk finds under a scope limit lies directly in that scope: its name is
/// the limit's path followed by the variable's own name; without parameters, no trace is
/// of a parameter.
pub proof fn law_traces_lie_in_scope(hs: Seq<Hier>, filter: VarFilter)
    ensures
        forall|h: u32|
            #[trigger] walk(hs, filter).1.contains_key(h) ==> {
                let t = walk(hs, filter).1[h];
                &&& t.0.len() >= 1
                &&& (filter.scope matches Option::Some(s) ==> t.0.drop_last() == strings_view(s@))
                &&& (!filter.include_params ==> t.1 != VarType::VcdParameter)
            },
    decreases hs.len(),
{
    if hs.len() > 0 {
        law_traces_lie_in_scope(hs.drop_last(), filter);
        let w = walk(hs.drop_last(), filter);
        assert(walk(hs, filter) == step(w, hs.last(), filter));
        match hs.last() {
            Hier::Var(v) => {
                assert forall|h: u32| #[trigger] walk(hs, filter).1.contains_key(h) implies {
                    let t = walk(hs, filter).1[h];
                    &&& t.0.len() >= 1
                    &&& (filter.scope matches Option::Some(s) ==> t.0.drop_last() == strings_view(
                        s@,
                    ))
                    &&& (!filter.include_params ==> t.1 != VarType::VcdParameter)
                } by {
                    if h != v.handle || v.is_alias || !filter.spec_accepts(w.0, v.typ) {
                        assert(w.1.contains_key(h));
                    } else {
                        assert(w.0.push(v.name@).drop_last() =~= w.0);
                    }
                }
            },
            _ => {},
        }
    }
}

} // verus!
