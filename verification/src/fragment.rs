//! The composable core of every query node: a sequence of literal text
//! pieces and parameter slots, together with the bindings those slots
//! reference. Composition concatenates fragments and re-derives parameter
//! positions, so that a well-formed fragment always references its bindings
//! exactly once, in order, under collision-free names.

use vstd::prelude::*;

use crate::binding::{
    bindings_model, clone_bindings, lemma_param_name_injective, make_param_name, param_name,
    Binding, BindingModel, BindingsList,
};
use crate::value::{raw_model, Value};

verus! {

/// One piece of a query fragment: literal text, or a slot referencing the
/// binding at a position.
#[derive(Debug)]
pub enum Segment {
    Lit(String),
    Param(usize),
}

/// The mathematical model of a `Segment`.
pub enum SegModel {
    Lit(Seq<char>),
    Param(nat),
}

impl View for Segment {
    type V = SegModel;

    open spec fn view(&self) -> SegModel {
        match self {
            Segment::Lit(s) => SegModel::Lit(s@),
            Segment::Param(n) => SegModel::Param(*n as nat),
        }
    }
}

impl Clone for Segment {
    /// A structural copy: the copy has the same model as the original.
    fn clone(&self) -> (r: Self)
        ensures
            r@ == self@,
    {
        match self {
            Segment::Lit(s) => Segment::Lit(s.clone()),
            Segment::Param(n) => Segment::Param(*n),
        }
    }
}

/// The models of a list of segments, in order.
pub open spec fn segs_model(s: Seq<Segment>) -> Seq<SegModel> {
    Seq::new(s.len(), |i: int| s[i]@)
}

/// The parameter positions referenced by a list of segments, in text order.
pub open spec fn param_positions(segs: Seq<SegModel>) -> Seq<nat>
    decreases segs,
{
    if segs.len() == 0 {
        Seq::empty()
    } else {
        match segs.last() {
            SegModel::Lit(_) => param_positions(segs.drop_last()),
            SegModel::Param(n) => param_positions(segs.drop_last()).push(n),
        }
    }
}

/// The query text that a list of segments renders to: literal pieces as they
/// are, each parameter slot as `$` and the name derived from its position.
pub open spec fn render_segs(segs: Seq<SegModel>) -> Seq<char>
    decreases segs,
{
    if segs.len() == 0 {
        Seq::empty()
    } else {
        render_segs(segs.drop_last()) + match segs.last() {
            SegModel::Lit(t) => t,
            SegModel::Param(n) => seq!['$'] + param_name(n),
        }
    }
}

/// A list of segments with its positions shifted up by `k`, as produced when
/// the segments are embedded after `k` existing bindings.
pub open spec fn shift_segs(segs: Seq<SegModel>, k: nat) -> Seq<SegModel> {
    Seq::new(
        segs.len(),
        |i: int|
            match segs[i] {
                SegModel::Lit(t) => SegModel::Lit(t),
                SegModel::Param(n) => SegModel::Param(n + k),
            },
    )
}

/// A list of binding models re-derived for positions starting at `k`: only
/// the parameter names change, values and order are kept.
pub open spec fn renumber_binds(binds: Seq<BindingModel>, k: nat) -> Seq<BindingModel> {
    Seq::new(
        binds.len(),
        |i: int| BindingModel { param: param_name(k + i as nat), ..binds[i] },
    )
}

/// The mathematical model of a `QueryFragment`.
pub struct FragModel {
    pub segs: Seq<SegModel>,
    pub binds: Seq<BindingModel>,
}

/// Well-formedness: the positions referenced by the segments, in text order,
/// are exactly 0, 1, ... over the binding list, and every binding carries the
/// parameter name derived from its position.
pub open spec fn wf_frag(m: FragModel) -> bool {
    &&& param_positions(m.segs) == Seq::new(m.binds.len(), |i: int| i as nat)
    &&& forall|i: int|
        0 <= i < m.binds.len() ==> (#[trigger] m.binds[i]).param == param_name(i as nat)
}

/// A composable query fragment: deterministic text plus the bindings the
/// text references by `$name` placeholders — never raw values.
#[derive(Debug)]
pub struct QueryFragment {
    segments: Vec<Segment>,
    bindings: Vec<Binding>,
}

impl View for QueryFragment {
    type V = FragModel;

    closed spec fn view(&self) -> FragModel {
        FragModel { segs: segs_model(self.segments@), binds: bindings_model(self.bindings@) }
    }
}

proof fn lemma_positions_push(segs: Seq<SegModel>, x: SegModel)
    ensures
        x is Lit ==> param_positions(segs.push(x)) == param_positions(segs),
        x matches SegModel::Param(n) ==> param_positions(segs.push(x)) == param_positions(
            segs,
        ).push(n),
{
    assert(segs.push(x).drop_last() =~= segs);
    assert(segs.push(x).last() == x);
}

impl QueryFragment {
    /// Whether this fragment is well-formed; constructors establish it and
    /// every composition preserves it.
    pub open spec fn wf(&self) -> bool {
        wf_frag(self@)
    }

    /// The empty fragment: no text, no bindings.
    pub fn empty() -> (r: QueryFragment)
        ensures
            r@.segs == Seq::<SegModel>::empty(),
            r@.binds == Seq::<BindingModel>::empty(),
            r.wf(),
    {
        let r = QueryFragment { segments: Vec::new(), bindings: Vec::new() };
        proof {
            assert(segs_model(Seq::empty()) =~= Seq::<SegModel>::empty());
            assert(bindings_model(Seq::empty()) =~= Seq::<BindingModel>::empty());
            assert(param_positions(Seq::empty()) =~= Seq::new(0, |i: int| i as nat));
        }
        r
    }

    /// A fragment of literal text only.
    pub fn lit(text: &str) -> (r: QueryFragment)
        ensures
            r@.segs == seq![SegModel::Lit(text@)],
            r@.binds == Seq::<BindingModel>::empty(),
            r.wf(),
    {
        let mut r = QueryFragment::empty();
        r.push_lit(text);
        proof {
            assert(r@.segs =~= seq![SegModel::Lit(text@)]);
        }
        r
    }

    /// Appends literal text; bindings are untouched.
    pub fn push_lit(&mut self, text: &str)
        ensures
            final(self)@.segs == old(self)@.segs.push(SegModel::Lit(text@)),
            final(self)@.binds == old(self)@.binds,
            old(self).wf() ==> final(self).wf(),
    {
        let ghost m0 = self@;
        self.segments.push(Segment::Lit(text.to_owned()));
        proof {
            assert(self@.segs =~= m0.segs.push(SegModel::Lit(text@)));
            lemma_positions_push(m0.segs, SegModel::Lit(text@));
        }
    }

    /// Lowers a literal value into the fragment: appends one parameter slot
    /// and exactly one new binding for the value, at the next position.
    pub fn push_value(&mut self, value: Value)
        ensures
            final(self)@.segs == old(self)@.segs.push(SegModel::Param(old(self)@.binds.len())),
            final(self)@.binds == old(self)@.binds.push(
                BindingModel {
                    param: param_name(old(self)@.binds.len()),
                    value: value@,
                    name: param_name(old(self)@.binds.len()),
                    raw: raw_model(value@),
                    description: None,
                },
            ),
            old(self).wf() ==> final(self).wf(),
    {
        let ghost m0 = self@;
        let idx = self.bindings.len();
        let b = Binding::new_at_index(value, idx);
        let ghost bm = b@;
        self.bindings.push(b);
        self.segments.push(Segment::Param(idx));
        proof {
            assert(segs_model(self.segments@) =~= m0.segs.push(SegModel::Param(idx as nat)));
            assert(bindings_model(self.bindings@) =~= m0.binds.push(bm));
            lemma_positions_push(m0.segs, SegModel::Param(idx as nat));
            if wf_frag(m0) {
                assert(param_positions(self@.segs) =~= Seq::new(
                    self@.binds.len(),
                    |i: int| i as nat,
                ));
            }
        }
    }

    /// Embeds another fragment after this one. The other fragment's bindings
    /// are merged — not re-created — in their construction order, after this
    /// fragment's own; their parameter names are re-derived for the new
    /// positions, and the embedded text references them accordingly.
    pub fn append(&mut self, other: QueryFragment)
        requires
            old(self).wf(),
            other.wf(),
        ensures
            final(self).wf(),
            final(self)@.segs == old(self)@.segs + shift_segs(other@.segs, old(self)@.binds.len()),
            final(self)@.binds == old(self)@.binds + renumber_binds(
                other@.binds,
                old(self)@.binds.len(),
            ),
    {
        let ghost m0 = self@;
        let ghost mo = other@;
        let ghost k = m0.binds.len();
        let QueryFragment { segments: osegs, bindings: obinds } = other;
        let base = self.bindings.len();
        let mut j: usize = 0;
        let n = obinds.len();
        proof {
            assert(mo.binds.subrange(0, 0) =~= Seq::<BindingModel>::empty());
            assert(renumber_binds(Seq::<BindingModel>::empty(), k)
                =~= Seq::<BindingModel>::empty());
            assert(bindings_model(self.bindings@) =~= m0.binds + renumber_binds(
                mo.binds.subrange(0, 0),
                k,
            ));
        }
        while j < n
            invariant
                n == obinds@.len(),
                j <= n,
                base == k,
                segs_model(self.segments@) == m0.segs,
                mo.binds == bindings_model(obinds@),
                self.bindings@.len() == base + j,
                bindings_model(self.bindings@) == m0.binds + renumber_binds(
                    mo.binds.subrange(0, j as int),
                    k,
                ),
            decreases n - j,
        {
            let idx = self.bindings.len();
            let nb = obinds[j].clone().renumbered(idx);
            let ghost nbm = nb@;
            self.bindings.push(nb);
            proof {
                let prev = mo.binds.subrange(0, j as int);
                let cur = mo.binds.subrange(0, j as int + 1);
                assert(cur[j as int] == mo.binds[j as int]);
                assert(mo.binds[j as int] == obinds@[j as int]@);
                assert(nbm == BindingModel {
                    param: param_name((k + j as nat) as nat),
                    ..mo.binds[j as int]
                });
                assert(renumber_binds(cur, k) =~= renumber_binds(prev, k).push(nbm));
                assert(bindings_model(self.bindings@) =~= (m0.binds + renumber_binds(
                    prev,
                    k,
                )).push(nbm));
                assert((m0.binds + renumber_binds(prev, k)).push(nbm) =~= m0.binds
                    + renumber_binds(cur, k));
            }
            j = j + 1;
        }
        proof {
            assert(mo.binds.subrange(0, mo.binds.len() as int) =~= mo.binds);
            assert(bindings_model(self.bindings@) == m0.binds + renumber_binds(mo.binds, k));
        }
        let total = self.bindings.len();
        let mut i: usize = 0;
        let sn = osegs.len();
        proof {
            assert(shift_segs(mo.segs.subrange(0, 0), k) =~= Seq::<SegModel>::empty());
            assert(segs_model(self.segments@) =~= m0.segs + shift_segs(
                mo.segs.subrange(0, 0),
                k,
            ));
        }
        while i < sn
            invariant
                sn == osegs@.len(),
                i <= sn,
                base == k,
                total == base + mo.binds.len(),
                mo.segs == segs_model(osegs@),
                wf_frag(mo),
                bindings_model(self.bindings@) == m0.binds + renumber_binds(mo.binds, k),
                segs_model(self.segments@) == m0.segs + shift_segs(
                    mo.segs.subrange(0, i as int),
                    k,
                ),
            decreases sn - i,
        {
            let seg = match &osegs[i] {
                Segment::Lit(t) => Segment::Lit(t.clone()),
                Segment::Param(p) => {
                    let p = *p;
                    proof {
                        lemma_positions_bound(mo.segs, mo.binds);
                        assert(mo.segs[i as int] == osegs@[i as int]@);
                        assert(p as nat == mo.segs[i as int]->Param_0);
                        assert((p as nat) < mo.binds.len());
                    }
                    Segment::Param(p + base)
                },
            };
            let ghost sm = seg@;
            self.segments.push(seg);
            proof {
                let prev = mo.segs.subrange(0, i as int);
                let cur = mo.segs.subrange(0, i as int + 1);
                assert(cur[i as int] == mo.segs[i as int]);
                assert(mo.segs[i as int] == osegs@[i as int]@);
                assert(sm == (match mo.segs[i as int] {
                    SegModel::Lit(t) => SegModel::Lit(t),
                    SegModel::Param(q) => SegModel::Param((q + k) as nat),
                }));
                assert(shift_segs(cur, k) =~= shift_segs(prev, k).push(sm));
                assert(segs_model(self.segments@) =~= (m0.segs + shift_segs(prev, k)).push(sm));
                assert((m0.segs + shift_segs(prev, k)).push(sm) =~= m0.segs + shift_segs(
                    cur,
                    k,
                ));
            }
            i = i + 1;
        }
        proof {
            assert(mo.segs.subrange(0, mo.segs.len() as int) =~= mo.segs);
            assert(segs_model(self.segments@) == m0.segs + shift_segs(mo.segs, k));
            lemma_wf_concat(m0, mo);
        }
    }

    /// Renders the fragment's query text: literal pieces as they are, each
    /// parameter slot as `$` and its binding's name.
    pub fn build_text(&self) -> (r: String)
        ensures
            r@ == render_segs(self@.segs),
    {
        proof {
            reveal_strlit("$");
        }
        let mut r = String::new();
        let n = self.segments.len();
        let mut i: usize = 0;
        while i < n
            invariant
                n == self.segments@.len(),
                i <= n,
                r@ == render_segs(segs_model(self.segments@).subrange(0, i as int)),
                "$"@ == seq!['$'],
            decreases n - i,
        {
            match &self.segments[i] {
                Segment::Lit(t) => {
                    r.append(t.as_str());
                },
                Segment::Param(p) => {
                    r.append("$");
                    let name = make_param_name(*p);
                    r.append(name.as_str());
                },
            }
            proof {
                let all = segs_model(self.segments@);
                let prev = all.subrange(0, i as int);
                let cur = all.subrange(0, i as int + 1);
                assert(cur.drop_last() =~= prev);
                assert(cur.last() == all[i as int]);
                assert(r@ =~= render_segs(cur));
            }
            i = i + 1;
        }
        proof {
            let all = segs_model(self.segments@);
            assert(all.subrange(0, all.len() as int) =~= all);
        }
        r
    }

    /// Renders the fragment's query text with every placeholder replaced by
    /// its binding's raw text: the one sanctioned way to inline values, used
    /// when a statement is lowered to a raw statement.
    pub fn build_raw(&self) -> (r: String)
        requires
            self.wf(),
        ensures
            r@ == crate::sql::render_raw_segs(self@.segs, self@.binds),
    {
        let mut r = String::new();
        let n = self.segments.len();
        let mut i: usize = 0;
        while i < n
            invariant
                self.wf(),
                n == self.segments@.len(),
                i <= n,
                r@ == crate::sql::render_raw_segs(
                    segs_model(self.segments@).subrange(0, i as int),
                    self@.binds,
                ),
            decreases n - i,
        {
            match &self.segments[i] {
                Segment::Lit(t) => {
                    r.append(t.as_str());
                },
                Segment::Param(p) => {
                    let p = *p;
                    proof {
                        lemma_positions_bound(self@.segs, self@.binds);
                        assert(self@.segs[i as int] == self.segments@[i as int]@);
                        assert((p as nat) < self@.binds.len());
                        assert(self@.binds[p as int].raw == self.bindings@[p as int]@.raw);
                    }
                    r.append(self.bindings[p].get_raw().as_str());
                },
            }
            proof {
                let all = segs_model(self.segments@);
                let prev = all.subrange(0, i as int);
                let cur = all.subrange(0, i as int + 1);
                assert(cur.drop_last() =~= prev);
                assert(cur.last() == all[i as int]);
                assert(r@ =~= crate::sql::render_raw_segs(cur, self@.binds));
            }
            i = i + 1;
        }
        proof {
            let all = segs_model(self.segments@);
            assert(all.subrange(0, all.len() as int) =~= all);
        }
        r
    }

    /// Returns the fragment's bindings, in construction order.
    pub fn bindings_list(&self) -> (r: BindingsList)
        ensures
            bindings_model(r@) == self@.binds,
    {
        clone_bindings(&self.bindings)
    }

    /// A structural copy with the same model.
    pub fn duplicate(&self) -> (r: QueryFragment)
        ensures
            r@ == self@,
    {
        let mut segs: Vec<Segment> = Vec::new();
        let n = self.segments.len();
        let mut i: usize = 0;
        while i < n
            invariant
                n == self.segments@.len(),
                i <= n,
                segs@.len() == i,
                forall|q: int| 0 <= q < i ==> segs@[q]@ == self.segments@[q]@,
            decreases n - i,
        {
            segs.push(self.segments[i].clone());
            i = i + 1;
        }
        let binds = clone_bindings(&self.bindings);
        let r = QueryFragment { segments: segs, bindings: binds };
        proof {
            assert(segs_model(r.segments@) =~= segs_model(self.segments@));
            assert(r@ == self@);
        }
        r
    }
}

proof fn lemma_positions_concat(s1: Seq<SegModel>, s2: Seq<SegModel>)
    ensures
        param_positions(s1 + s2) == param_positions(s1) + param_positions(s2),
    decreases s2,
{
    if s2.len() == 0 {
        assert(s1 + s2 =~= s1);
        assert(param_positions(s1) + param_positions(s2) =~= param_positions(s1));
    } else {
        lemma_positions_concat(s1, s2.drop_last());
        assert((s1 + s2).drop_last() =~= s1 + s2.drop_last());
        assert((s1 + s2).last() == s2.last());
        match s2.last() {
            SegModel::Lit(_) => {
                assert(param_positions(s2) == param_positions(s2.drop_last()));
            },
            SegModel::Param(n) => {
                assert(param_positions(s1 + s2) == (param_positions(s1) + param_positions(
                    s2.drop_last(),
                )).push(n));
                assert(param_positions(s1) + param_positions(s2.drop_last()).push(n)
                    =~= (param_positions(s1) + param_positions(s2.drop_last())).push(n));
            },
        }
    }
}

proof fn lemma_positions_shift(s: Seq<SegModel>, k: nat)
    ensures
        param_positions(shift_segs(s, k)) == Seq::new(
            param_positions(s).len(),
            |i: int| param_positions(s)[i] + k as nat,
        ),
    decreases s,
{
    if s.len() == 0 {
        assert(shift_segs(s, k) =~= Seq::<SegModel>::empty());
        assert(param_positions(shift_segs(s, k)) =~= Seq::new(
            param_positions(s).len(),
            |i: int| param_positions(s)[i] + k as nat,
        ));
    } else {
        lemma_positions_shift(s.drop_last(), k);
        assert(shift_segs(s, k).drop_last() =~= shift_segs(s.drop_last(), k));
        assert(shift_segs(s, k).last() == shift_segs(s, k)[s.len() - 1]);
        match s.last() {
            SegModel::Lit(_) => {
                assert(param_positions(shift_segs(s, k)) =~= Seq::new(
                    param_positions(s).len(),
                    |i: int| param_positions(s)[i] + k as nat,
                ));
            },
            SegModel::Param(n) => {
                assert(param_positions(shift_segs(s, k)) =~= Seq::new(
                    param_positions(s).len(),
                    |i: int| param_positions(s)[i] + k as nat,
                ));
            },
        }
    }
}

/// Concatenating two well-formed fragments, with the second's positions and
/// names shifted past the first's bindings, is well-formed again.
proof fn lemma_wf_concat(a: FragModel, b: FragModel)
    requires
        wf_frag(a),
        wf_frag(b),
    ensures
        wf_frag(
            FragModel {
                segs: a.segs + shift_segs(b.segs, a.binds.len()),
                binds: a.binds + renumber_binds(b.binds, a.binds.len()),
            },
        ),
{
    let k = a.binds.len();
    lemma_positions_concat(a.segs, shift_segs(b.segs, k));
    lemma_positions_shift(b.segs, k);
    let combined = a.binds + renumber_binds(b.binds, k);
    assert(param_positions(a.segs + shift_segs(b.segs, k)) =~= Seq::new(
        combined.len(),
        |i: int| i as nat,
    ));
}

/// Any position referenced by a well-formed fragment's segments lies within
/// its binding list.
proof fn lemma_positions_bound(segs: Seq<SegModel>, binds: Seq<BindingModel>)
    requires
        param_positions(segs) == Seq::new(binds.len(), |i: int| i as nat),
    ensures
        forall|i: int|
            0 <= i < segs.len() && segs[i] is Param ==> (#[trigger] segs[i])->Param_0
                < binds.len(),
{
    assert forall|i: int|
        0 <= i < segs.len() && segs[i] is Param implies (#[trigger] segs[i])->Param_0
        < binds.len() by {
        lemma_position_member(segs, i);
        let positions = param_positions(segs);
        let n = segs[i]->Param_0;
        let j = choose|j: int| 0 <= j < positions.len() && positions[j] == n;
        assert(positions[j] == j as nat);
    }
}

/// A position referenced by some segment occurs in `param_positions`.
proof fn lemma_position_member(segs: Seq<SegModel>, i: int)
    requires
        0 <= i < segs.len(),
        segs[i] is Param,
    ensures
        exists|j: int|
            0 <= j < param_positions(segs).len() && param_positions(segs)[j] == segs[i]->Param_0,
    decreases segs,
{
    if i == segs.len() - 1 {
        assert(segs.last() == segs[i]);
        let positions = param_positions(segs);
        assert(positions.last() == segs[i]->Param_0);
    } else {
        lemma_position_member(segs.drop_last(), i);
        assert(segs.drop_last()[i] == segs[i]);
        let inner = param_positions(segs.drop_last());
        let j = choose|j: int| 0 <= j < inner.len() && inner[j] == segs[i]->Param_0;
        match segs.last() {
            SegModel::Lit(_) => {
                assert(param_positions(segs) == inner);
            },
            SegModel::Param(n) => {
                assert(param_positions(segs) == inner.push(n));
                assert(param_positions(segs)[j] == segs[i]->Param_0);
            },
        }
    }
}

/// Shifting segment positions by zero changes nothing.
pub proof fn lemma_shift_segs_zero(s: Seq<SegModel>)
    ensures
        shift_segs(s, 0) == s,
{
    assert(shift_segs(s, 0) =~= s);
}

/// Re-deriving names from position zero changes nothing in a well-formed
/// binding list: every binding already carries its position's name.
pub proof fn lemma_renumber_binds_zero(binds: Seq<BindingModel>)
    requires
        forall|i: int|
            0 <= i < binds.len() ==> (#[trigger] binds[i]).param == param_name(i as nat),
    ensures
        renumber_binds(binds, 0) == binds,
{
    assert(renumber_binds(binds, 0) =~= binds);
}

/// Rendering distributes over concatenation of segment lists.
pub proof fn lemma_render_concat(s1: Seq<SegModel>, s2: Seq<SegModel>)
    ensures
        render_segs(s1 + s2) == render_segs(s1) + render_segs(s2),
    decreases s2,
{
    if s2.len() == 0 {
        assert(s1 + s2 =~= s1);
        assert(render_segs(s1) + render_segs(s2) =~= render_segs(s1));
    } else {
        lemma_render_concat(s1, s2.drop_last());
        assert((s1 + s2).drop_last() =~= s1 + s2.drop_last());
        assert((s1 + s2).last() == s2.last());
        let piece = match s2.last() {
            SegModel::Lit(t) => t,
            SegModel::Param(n) => seq!['$'] + param_name(n),
        };
        assert(render_segs(s1 + s2) == render_segs(s1) + render_segs(s2.drop_last()) + piece);
        assert(render_segs(s1) + render_segs(s2.drop_last()) + piece =~= render_segs(s1)
            + render_segs(s2));
    }
}

/// The `$name` placeholders of a fragment's text, in text order.
pub open spec fn placeholder_names(segs: Seq<SegModel>) -> Seq<Seq<char>> {
    Seq::new(
        param_positions(segs).len(),
        |i: int| seq!['$'] + param_name(param_positions(segs)[i]),
    )
}

/// Placeholder/binding correspondence: in a well-formed fragment, the
/// `$name` placeholders that its slots render — in text order — are exactly
/// the `$`-prefixed names of the bindings: every placeholder has its
/// binding, every binding's name appears exactly once as a placeholder, and
/// no two placeholders coincide.
pub proof fn lemma_placeholder_binding_correspondence(m: FragModel)
    requires
        wf_frag(m),
    ensures
        placeholder_names(m.segs).len() == m.binds.len(),
        forall|i: int|
            0 <= i < m.binds.len() ==> placeholder_names(m.segs)[i] == seq!['$']
                + (#[trigger] m.binds[i]).param,
        forall|i: int, j: int|
            0 <= i < m.binds.len() && 0 <= j < m.binds.len() && i != j ==> placeholder_names(
                m.segs,
            )[i] != placeholder_names(m.segs)[j],
{
    let names = placeholder_names(m.segs);
    assert forall|i: int, j: int|
        0 <= i < m.binds.len() && 0 <= j < m.binds.len() && i != j implies names[i]
        != names[j] by {
        if names[i] == names[j] {
            let a = param_name(i as nat);
            let b = param_name(j as nat);
            assert((seq!['$'] + a).subrange(1, (seq!['$'] + a).len() as int) =~= a);
            assert((seq!['$'] + b).subrange(1, (seq!['$'] + b).len() as int) =~= b);
            lemma_param_name_injective(i as nat, j as nat);
        }
    }
}

/// Binding-name uniqueness: in a well-formed fragment — one statement's worth
/// of text, a transaction included — no two bindings share a generated name.
pub proof fn lemma_binding_names_unique(m: FragModel)
    requires
        wf_frag(m),
    ensures
        forall|i: int, j: int|
            0 <= i < m.binds.len() && 0 <= j < m.binds.len() && i != j ==> (
            #[trigger] m.binds[i]).param != (#[trigger] m.binds[j]).param,
{
    assert forall|i: int, j: int|
        0 <= i < m.binds.len() && 0 <= j < m.binds.len() && i != j implies m.binds[i].param
        != m.binds[j].param by {
        if m.binds[i].param == m.binds[j].param {
            lemma_param_name_injective(i as nat, j as nat);
        }
    }
}

} // verus!
