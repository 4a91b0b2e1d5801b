//! The schedule configurations that the benchmark tool tries: every combination of
//! the backends, power, precision and memory modes it is given.
use vstd::prelude::*;

use crate::backend::{BackendConfig, MemoryMode, PowerMode, PrecisionMode};
use crate::schedule::{spec_new_schedule_config, ForwardType, ScheduleConfig, ScheduleConfigView};

verus! {

/// Element type of the data that a benchmark compares.
#[derive(Debug, Clone, Copy, PartialEq, Eq)]
pub enum DataType {
    Float32,
    Int32,
    Int64,
    Int8,
    Uint8,
}

/// One schedule configuration to try.
#[derive(Debug, Clone, Copy, PartialEq, Eq)]
pub struct ScheduleConfigItem {
    pub forward: ForwardType,
    pub power: PowerMode,
    pub precision: PrecisionMode,
    pub memory: MemoryMode,
}

/// The schedule configuration that an item stands for, as a spec value.
pub open spec fn spec_item_config(item: ScheduleConfigItem) -> ScheduleConfigView {
    ScheduleConfigView {
        forward: item.forward.spec_code(),
        backend_config: Some(
            BackendConfig::new_spec().spec_set_power(item.power).spec_set_precision(
                item.precision,
            ).spec_set_memory(item.memory),
        ),
        ..spec_new_schedule_config()
    }
}

impl ScheduleConfigItem {
    /// An item from its four choices.
    pub fn new(
        forward: ForwardType,
        power: PowerMode,
        precision: PrecisionMode,
        memory: MemoryMode,
    ) -> (i: Self)
        ensures
            i == (ScheduleConfigItem { forward, power, precision, memory }),
    {
        ScheduleConfigItem { forward, power, precision, memory }
    }

    /// The schedule configuration: a fresh one on the item's backend, with a backend
    /// configuration of the item's power, precision and memory modes.
    pub fn into_schedule_config(self) -> (c: ScheduleConfig)
        ensures
            c@ == spec_item_config(self),
    {
        let mut sc = ScheduleConfig::new();
        let mut bc = BackendConfig::new();
        bc.set_power_mode(self.power);
        bc.set_precision_mode(self.precision);
        bc.set_memory_mode(self.memory);
        sc.set_type(self.forward);
        sc.set_backend_config(Some(bc));
        sc
    }
}

/// The items of one backend, power and precision mode: one per memory mode.
pub open spec fn spec_memory_block(
    f: ForwardType,
    p: PowerMode,
    r: PrecisionMode,
    ms: Seq<MemoryMode>,
) -> Seq<ScheduleConfigItem> {
    ms.map_values(|m: MemoryMode| ScheduleConfigItem { forward: f, power: p, precision: r, memory: m })
}

/// The items of one backend and power mode.
pub open spec fn spec_precision_block(
    f: ForwardType,
    p: PowerMode,
    rs: Seq<PrecisionMode>,
    ms: Seq<MemoryMode>,
) -> Seq<ScheduleConfigItem> {
    rs.map_values(|r: PrecisionMode| spec_memory_block(f, p, r, ms)).flatten()
}

/// The items of one backend.
pub open spec fn spec_power_block(
    f: ForwardType,
    ps: Seq<PowerMode>,
    rs: Seq<PrecisionMode>,
    ms: Seq<MemoryMode>,
) -> Seq<ScheduleConfigItem> {
    ps.map_values(|p: PowerMode| spec_precision_block(f, p, rs, ms)).flatten()
}

/// All items, backend by backend, then power, precision and memory mode.
pub open spec fn spec_items(
    fs: Seq<ForwardType>,
    ps: Seq<PowerMode>,
    rs: Seq<PrecisionMode>,
    ms: Seq<MemoryMode>,
) -> Seq<ScheduleConfigItem> {
    fs.map_values(|f: ForwardType| spec_power_block(f, ps, rs, ms)).flatten()
}

/// The lists of choices to combine.
#[derive(Debug, Clone)]
pub struct ScheduleConfigItems {
    forward: Vec<ForwardType>,
    power: Vec<PowerMode>,
    precision: Vec<PrecisionMode>,
    memory: Vec<MemoryMode>,
}

/// The lists of choices, as spec values.
pub struct ScheduleConfigItemsView {
    pub forward: Seq<ForwardType>,
    pub power: Seq<PowerMode>,
    pub precision: Seq<PrecisionMode>,
    pub memory: Seq<MemoryMode>,
}

impl View for ScheduleConfigItems {
    type V = ScheduleConfigItemsView;

    closed spec fn view(&self) -> ScheduleConfigItemsView {
        ScheduleConfigItemsView {
            forward: self.forward@,
            power: self.power@,
            precision: self.precision@,
            memory: self.memory@,
        }
    }
}

/// Number of combinations of the choices.
pub open spec fn spec_combinations(v: ScheduleConfigItemsView) -> int {
    (v.forward.len() * v.power.len() * v.precision.len() * v.memory.len()) as int
}

/// The running products of the list lengths, taken from the backends on, fit in a
/// machine word.
pub open spec fn spec_products_fit(v: ScheduleConfigItemsView) -> bool {
    &&& v.forward.len() * v.power.len() <= usize::MAX
    &&& v.forward.len() * v.power.len() * v.precision.len() <= usize::MAX
    &&& spec_combinations(v) <= usize::MAX
}

fn push_memory_block(
    out: &mut Vec<ScheduleConfigItem>,
    f: ForwardType,
    p: PowerMode,
    r: PrecisionMode,
    ms: &Vec<MemoryMode>,
)
    ensures
        final(out)@ == old(out)@ + spec_memory_block(f, p, r, ms@),
{
    let n = ms.len();
    let mut j: usize = 0;
    while j < n
        invariant
            n == ms@.len(),
            j <= n,
            out@ == old(out)@ + spec_memory_block(f, p, r, ms@.take(j as int)),
        decreases n - j,
    {
        let item = ScheduleConfigItem { forward: f, power: p, precision: r, memory: ms[j] };
        out.push(item);
        assert(spec_memory_block(f, p, r, ms@.take(j + 1)) =~= spec_memory_block(
            f,
            p,
            r,
            ms@.take(j as int),
        ).push(item));
        j = j + 1;
    }
    assert(ms@.take(n as int) =~= ms@);
}

fn push_precision_block(
    out: &mut Vec<ScheduleConfigItem>,
    f: ForwardType,
    p: PowerMode,
    rs: &Vec<PrecisionMode>,
    ms: &Vec<MemoryMode>,
)
    ensures
        final(out)@ == old(out)@ + spec_precision_block(f, p, rs@, ms@),
{
    let n = rs.len();
    let mut j: usize = 0;
    while j < n
        invariant
            n == rs@.len(),
            j <= n,
            out@ == old(out)@ + spec_precision_block(f, p, rs@.take(j as int), ms@),
        decreases n - j,
    {
        let ghost before = out@;
        push_memory_block(out, f, p, rs[j], ms);
        proof {
            let g = |r: PrecisionMode| spec_memory_block(f, p, r, ms@);
            let s = rs@.take(j as int).map_values(g);
            assert(rs@.take(j + 1).map_values(g) =~= s.push(g(rs@[j as int])));
            s.lemma_flatten_push(g(rs@[j as int]));
            assert(out@ =~= old(out)@ + spec_precision_block(f, p, rs@.take(j + 1), ms@));
        }
        j = j + 1;
    }
    assert(rs@.take(n as int) =~= rs@);
}

fn push_power_block(
    out: &mut Vec<ScheduleConfigItem>,
    f: ForwardType,
    ps: &Vec<PowerMode>,
    rs: &Vec<PrecisionMode>,
    ms: &Vec<MemoryMode>,
)
    ensures
        final(out)@ == old(out)@ + spec_power_block(f, ps@, rs@, ms@),
{
    let n = ps.len();
    let mut j: usize = 0;
    while j < n
        invariant
            n == ps@.len(),
            j <= n,
            out@ == old(out)@ + spec_power_block(f, ps@.take(j as int), rs@, ms@),
        decreases n - j,
    {
        push_precision_block(out, f, ps[j], rs, ms);
        proof {
            let g = |p: PowerMode| spec_precision_block(f, p, rs@, ms@);
            let s = ps@.take(j as int).map_values(g);
            assert(ps@.take(j + 1).map_values(g) =~= s.push(g(ps@[j as int])));
            s.lemma_flatten_push(g(ps@[j as int]));
            assert(out@ =~= old(out)@ + spec_power_block(f, ps@.take(j + 1), rs@, ms@));
        }
        j = j + 1;
    }
    assert(ps@.take(n as int) =~= ps@);
}

impl ScheduleConfigItems {
    /// The lists of choices to combine.
    pub fn new(
        forward: Vec<ForwardType>,
        power: Vec<PowerMode>,
        precision: Vec<PrecisionMode>,
        memory: Vec<MemoryMode>,
    ) -> (s: Self)
        ensures
            s@.forward == forward@,
            s@.power == power@,
            s@.precision == precision@,
            s@.memory == memory@,
    {
        ScheduleConfigItems { forward, power, precision, memory }
    }

    /// Whether some list of choices is empty, so that there is no combination.
    pub fn is_empty(&self) -> (b: bool)
        ensures
            b == (self@.forward.len() == 0 || self@.power.len() == 0 || self@.precision.len() == 0
                || self@.memory.len() == 0),
    {
        self.forward.len() == 0 || self.power.len() == 0 || self.precision.len() == 0
            || self.memory.len() == 0
    }

    /// Whether there is exactly one combination.
    pub fn is_single(&self) -> (b: bool)
        requires
            spec_products_fit(self@),
        ensures
            b == (spec_combinations(self@) == 1),
    {
        self.combinations() == 1
    }

    /// Number of combinations of the choices.
    pub fn combinations(&self) -> (n: usize)
        requires
            spec_products_fit(self@),
        ensures
            n == spec_combinations(self@),
    {
        let a = self.forward.len();
        let b = self.power.len();
        let c = self.precision.len();
        let d = self.memory.len();
        a * b * c * d
    }

    /// Every combination, backend by backend, then power, precision and memory mode.
    pub fn items(&self) -> (v: Vec<ScheduleConfigItem>)
        ensures
            v@ == spec_items(self@.forward, self@.power, self@.precision, self@.memory),
    {
        let mut out: Vec<ScheduleConfigItem> = Vec::new();
        let n = self.forward.len();
        let mut j: usize = 0;
        while j < n
            invariant
                n == self.forward@.len(),
                j <= n,
                out@ == spec_items(
                    self.forward@.take(j as int),
                    self.power@,
                    self.precision@,
                    self.memory@,
                ),
            decreases n - j,
        {
            push_power_block(&mut out, self.forward[j], &self.power, &self.precision, &self.memory);
            proof {
                let g = |f: ForwardType|
                    spec_power_block(f, self.power@, self.precision@, self.memory@);
                let s = self.forward@.take(j as int).map_values(g);
                assert(self.forward@.take(j + 1).map_values(g) =~= s.push(
                    g(self.forward@[j as int]),
                ));
                s.lemma_flatten_push(g(self.forward@[j as int]));
            }
            j = j + 1;
        }
        proof {
            assert(self.forward@.take(n as int) =~= self.forward@);
            assert(Seq::<Seq<ScheduleConfigItem>>::empty().flatten() =~= Seq::<
                ScheduleConfigItem,
            >::empty());
        }
        out
    }
}

/// A sequence of sequences that all have length `k` flattens to a sequence of
/// `len * k` items.
proof fn lemma_uniform_flatten_len<A>(s: Seq<Seq<A>>, k: int)
    requires
        k >= 0,
        forall|i: int| 0 <= i < s.len() ==> #[trigger] s[i].len() == k,
    ensures
        s.flatten().len() == s.len() * k,
    decreases s.len(),
{
    if s.len() > 0 {
        let t = s.drop_last();
        lemma_uniform_flatten_len(t, k);
        assert(t.push(s.last()) =~= s);
        t.lemma_flatten_push(s.last());
        assert(s.len() * k == t.len() * k + k) by (nonlinear_arith)
            requires
                s.len() == t.len() + 1,
        ;
    } else {
        assert(s.flatten() =~= Seq::<A>::empty());
    }
}

/// In a sequence of sequences that all have length `k`, the item at `j` of the
/// sequence at `i` is the item at `i * k + j` of the flattened sequence.
proof fn lemma_uniform_flatten_index<A>(s: Seq<Seq<A>>, k: int, i: int, j: int)
    requires
        k >= 0,
        forall|t: int| 0 <= t < s.len() ==> #[trigger] s[t].len() == k,
        0 <= i < s.len(),
        0 <= j < k,
    ensures
        0 <= i * k + j < s.len() * k,
        s.flatten().len() == s.len() * k,
        s.flatten()[i * k + j] == s[i][j],
    decreases s.len(),
{
    let t = s.drop_last();
    assert(t.push(s.last()) =~= s);
    t.lemma_flatten_push(s.last());
    lemma_uniform_flatten_len(t, k);
    lemma_uniform_flatten_len(s, k);
    assert(0 <= i * k && i * k + j < s.len() * k) by (nonlinear_arith)
        requires
            0 <= i < s.len(),
            0 <= j < k,
    ;
    if i < t.len() {
        lemma_uniform_flatten_index(t, k, i, j);
        assert(s.flatten()[i * k + j] == t.flatten()[i * k + j]);
    } else {
        assert(i * k == t.len() * k);
        assert(s.flatten()[i * k + j] == s.last()[j]);
    }
}

/// The items are every combination of the choices, in order: the item at position
/// `a * (|ps| * |rs| * |ms|) + b * (|rs| * |ms|) + c * |ms| + d` is made of the backend
/// `fs[a]`, the power mode `ps[b]`, the precision mode `rs[c]` and the memory mode
/// `ms[d]`.
pub proof fn lemma_items_at(
    fs: Seq<ForwardType>,
    ps: Seq<PowerMode>,
    rs: Seq<PrecisionMode>,
    ms: Seq<MemoryMode>,
    a: int,
    b: int,
    c: int,
    d: int,
)
    requires
        0 <= a < fs.len(),
        0 <= b < ps.len(),
        0 <= c < rs.len(),
        0 <= d < ms.len(),
    ensures
        ({
            let n = a * (ps.len() * rs.len() * ms.len()) + b * (rs.len() * ms.len()) + c * ms.len()
                + d;
            &&& 0 <= n < spec_items(fs, ps, rs, ms).len()
            &&& spec_items(fs, ps, rs, ms)[n] == ScheduleConfigItem {
                forward: fs[a],
                power: ps[b],
                precision: rs[c],
                memory: ms[d],
            }
        }),
{
    let m = ms.len() as int;
    let r = rs.len() as int;
    let p = ps.len() as int;
    let f1 = fs[a];
    let p1 = ps[b];
    let mb = rs.map_values(|r1: PrecisionMode| spec_memory_block(f1, p1, r1, ms));
    lemma_uniform_flatten_index(mb, m, c, d);
    let x = c * m + d;
    assert(spec_precision_block(f1, p1, rs, ms) == mb.flatten());
    assert(r * m >= 0) by (nonlinear_arith)
        requires
            r >= 0,
            m >= 0,
    ;
    assert forall|f2: ForwardType, p2: PowerMode|
        #[trigger] spec_precision_block(f2, p2, rs, ms).len() == r * m by {
        let s2 = rs.map_values(|r1: PrecisionMode| spec_memory_block(f2, p2, r1, ms));
        lemma_uniform_flatten_len(s2, m);
    }
    let pb = ps.map_values(|p2: PowerMode| spec_precision_block(f1, p2, rs, ms));
    lemma_uniform_flatten_index(pb, r * m, b, x);
    let y = b * (r * m) + x;
    assert(p * (r * m) >= 0) by (nonlinear_arith)
        requires
            p >= 0,
            r >= 0,
            m >= 0,
    ;
    assert forall|f2: ForwardType| #[trigger] spec_power_block(f2, ps, rs, ms).len() == p * (r * m) by {
        let s2 = ps.map_values(|p2: PowerMode| spec_precision_block(f2, p2, rs, ms));
        lemma_uniform_flatten_len(s2, r * m);
    }
    let fb = fs.map_values(|f2: ForwardType| spec_power_block(f2, ps, rs, ms));
    lemma_uniform_flatten_index(fb, p * (r * m), a, y);
    assert(a * (p * (r * m)) + y == a * (p * r * m) + b * (r * m) + c * m + d) by (nonlinear_arith)
        requires
            y == b * (r * m) + x,
            x == c * m + d,
    ;
}

/// Every combination is listed once: there are as many items as combinations, and
/// there are none exactly when some list of choices is empty.
pub proof fn lemma_items_count(
    fs: Seq<ForwardType>,
    ps: Seq<PowerMode>,
    rs: Seq<PrecisionMode>,
    ms: Seq<MemoryMode>,
)
    ensures
        spec_items(fs, ps, rs, ms).len() == fs.len() * ps.len() * rs.len() * ms.len(),
        (fs.len() * ps.len() * rs.len() * ms.len() == 0) == (fs.len() == 0 || ps.len() == 0
            || rs.len() == 0 || ms.len() == 0),
{
    let m = ms.len() as int;
    let r = rs.len() as int;
    let p = ps.len() as int;
    let f = fs.len() as int;
    assert forall|f1: ForwardType, p1: PowerMode|
        #[trigger] spec_precision_block(f1, p1, rs, ms).len() == r * m by {
        let s = rs.map_values(|r1: PrecisionMode| spec_memory_block(f1, p1, r1, ms));
        lemma_uniform_flatten_len(s, m);
    }
    assert forall|f1: ForwardType| #[trigger] spec_power_block(f1, ps, rs, ms).len() == p * (r
        * m) by {
        let s = ps.map_values(|p1: PowerMode| spec_precision_block(f1, p1, rs, ms));
        assert(r * m >= 0) by (nonlinear_arith)
            requires
                r >= 0,
                m >= 0,
        ;
        lemma_uniform_flatten_len(s, r * m);
    }
    let s = fs.map_values(|f1: ForwardType| spec_power_block(f1, ps, rs, ms));
    assert(p * (r * m) >= 0) by (nonlinear_arith)
        requires
            p >= 0,
            r >= 0,
            m >= 0,
    ;
    lemma_uniform_flatten_len(s, p * (r * m));
    assert(f * (p * (r * m)) == f * p * r * m) by (nonlinear_arith);
    assert((f * p * r * m == 0) == (f == 0 || p == 0 || r == 0 || m == 0)) by (nonlinear_arith)
        requires
            f >= 0,
            p >= 0,
            r >= 0,
            m >= 0,
    ;
}

} // verus!
