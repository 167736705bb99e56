use vstd::prelude::*;
use vstd::set_lib::{lemma_int_range, lemma_len_subset, set_int_range};

use crate::named_map::NamedMap;

verus! {

/// A definition that may name a parent definition, from which it inherits every setting it does
/// not set itself.
pub trait Layered: Sized {
    /// The name of the parent definition, if one is named.
    spec fn parent_name(&self) -> Option<Seq<char>>;

    /// The name of the parent definition, if one is named.
    fn inherits(&self) -> (r: Option<&String>)
        ensures
            r is Some <==> self.parent_name() is Some,
            r matches Some(p) ==> self.parent_name() == Some(p@),
    ;
}

/// One setting of a definition of type `C`, as the definition itself gives it (before
/// inheritance).
pub trait Setting<C> {
    type Value;

    /// The value that definition `c` gives this setting itself, if any.
    spec fn local(c: C) -> Option<Self::Value>;

    /// The value that definition `c` gives this setting itself, if any.
    fn pick(c: &C) -> (r: Option<Self::Value>)
        ensures
            r == Self::local(*c),
    ;
}

/// Looking a setting up along the chain of parents, with at most `fuel` steps to a parent:
/// `Some(v)` when the search ends within them with `v` (the first definition that sets it gives
/// `Some(..)`; a chain that ends, or names a parent missing from `all`, gives `None`), and `None`
/// when the steps run out.
pub open spec fn resolution<C: Layered, S: Setting<C>>(
    all: NamedMap<C>,
    cfg: C,
    fuel: nat,
) -> Option<Option<S::Value>>
    decreases fuel,
{
    match S::local(cfg) {
        Some(v) => Some(Some(v)),
        None => match cfg.parent_name() {
            None => Some(None),
            Some(p) => if !all.has(p) {
                Some(None)
            } else if fuel == 0 {
                None
            } else {
                resolution::<C, S>(all, all.at(p), (fuel - 1) as nat)
            },
        },
    }
}

/// The search for the setting along the chain of parents ends (it would go on for ever where the
/// chain runs in a circle without reaching a definition that sets it).
pub open spec fn resolves<C: Layered, S: Setting<C>>(all: NamedMap<C>, cfg: C) -> bool {
    exists|fuel: nat| #[trigger] resolution::<C, S>(all, cfg, fuel) is Some
}

/// The value of the setting for `cfg`: its own, else the one its parent resolves to (meaningful
/// where `resolves`).
pub open spec fn resolved<C: Layered, S: Setting<C>>(all: NamedMap<C>, cfg: C) -> Option<
    S::Value,
> {
    resolution::<C, S>(
        all,
        cfg,
        choose|fuel: nat| #[trigger] resolution::<C, S>(all, cfg, fuel) is Some,
    ).unwrap()
}

/// More steps do not change a search that has already ended.
pub proof fn lemma_resolution_fuel<C: Layered, S: Setting<C>>(
    all: NamedMap<C>,
    cfg: C,
    f1: nat,
    f2: nat,
)
    requires
        resolution::<C, S>(all, cfg, f1) is Some,
        f1 <= f2,
    ensures
        resolution::<C, S>(all, cfg, f2) == resolution::<C, S>(all, cfg, f1),
    decreases f1,
{
    if S::local(cfg) is None {
        if let Some(p) = cfg.parent_name() {
            if all.has(p) && f1 > 0 {
                lemma_resolution_fuel::<C, S>(all, all.at(p), (f1 - 1) as nat, (f2 - 1) as nat);
            }
        }
    }
}

/// A definition's own value of a setting is the value it resolves to, whatever its parents say.
pub proof fn lemma_own_setting_wins<C: Layered, S: Setting<C>>(all: NamedMap<C>, cfg: C)
    requires
        S::local(cfg) is Some,
    ensures
        resolves::<C, S>(all, cfg),
        resolved::<C, S>(all, cfg) == S::local(cfg),
{
    assert(resolution::<C, S>(all, cfg, 0) is Some);
}

/// A definition that does not set a setting, and whose parent `all` holds, resolves it as that
/// parent does; and the search from the definition ends just when the search from the parent
/// does.
pub proof fn lemma_inherited_from_parent<C: Layered, S: Setting<C>>(all: NamedMap<C>, cfg: C)
    requires
        S::local(cfg) is None,
        cfg.parent_name() is Some,
        all.has(cfg.parent_name().unwrap()),
    ensures
        resolves::<C, S>(all, cfg) <==> resolves::<C, S>(all, all.at(cfg.parent_name().unwrap())),
        resolves::<C, S>(all, cfg) ==> resolved::<C, S>(all, cfg) == resolved::<C, S>(
            all,
            all.at(cfg.parent_name().unwrap()),
        ),
{
    let parent = all.at(cfg.parent_name().unwrap());
    if resolves::<C, S>(all, cfg) {
        let f = choose|fuel: nat| #[trigger] resolution::<C, S>(all, cfg, fuel) is Some;
        assert(f > 0);
        assert(resolution::<C, S>(all, parent, (f - 1) as nat) is Some);
        let g = choose|fuel: nat| #[trigger] resolution::<C, S>(all, parent, fuel) is Some;
        if g <= (f - 1) as nat {
            lemma_resolution_fuel::<C, S>(all, parent, g, (f - 1) as nat);
        } else {
            lemma_resolution_fuel::<C, S>(all, parent, (f - 1) as nat, g);
        }
    }
    if resolves::<C, S>(all, parent) {
        let g = choose|fuel: nat| #[trigger] resolution::<C, S>(all, parent, fuel) is Some;
        assert(resolution::<C, S>(all, cfg, g + 1) is Some);
    }
}

/// A definition that does not set a setting, and names no parent that `all` holds, resolves it
/// to `None`.
pub proof fn lemma_unset_without_parent<C: Layered, S: Setting<C>>(all: NamedMap<C>, cfg: C)
    requires
        S::local(cfg) is None,
        cfg.parent_name() matches Some(p) ==> !all.has(p),
    ensures
        resolves::<C, S>(all, cfg),
        resolved::<C, S>(all, cfg) is None,
{
    assert(resolution::<C, S>(all, cfg, 0) is Some);
}

/// The three ways a lookup goes: a definition that sets the setting gives its own value; one that
/// does not, and whose parent `all` holds, gives what the parent gives (and its search ends just
/// when the parent's does); one that does not, without such a parent, leaves it unset.
pub proof fn lemma_lookup_cases<C: Layered, S: Setting<C>>(all: NamedMap<C>, cfg: C)
    ensures
        S::local(cfg) is Some ==> resolves::<C, S>(all, cfg) && resolved::<C, S>(all, cfg)
            == S::local(cfg),
        S::local(cfg) is None && cfg.parent_name() is Some && all.has(cfg.parent_name().unwrap())
            ==> (resolves::<C, S>(all, cfg) <==> resolves::<C, S>(
            all,
            all.at(cfg.parent_name().unwrap()),
        )) && (resolves::<C, S>(all, cfg) ==> resolved::<C, S>(all, cfg) == resolved::<C, S>(
            all,
            all.at(cfg.parent_name().unwrap()),
        )),
        S::local(cfg) is None && !(cfg.parent_name() is Some && all.has(cfg.parent_name().unwrap()))
            ==> resolves::<C, S>(all, cfg) && resolved::<C, S>(all, cfg) is None,
{
    if S::local(cfg) is Some {
        lemma_own_setting_wins::<C, S>(all, cfg);
    } else if cfg.parent_name() is Some && all.has(cfg.parent_name().unwrap()) {
        lemma_inherited_from_parent::<C, S>(all, cfg);
    } else {
        lemma_unset_without_parent::<C, S>(all, cfg);
    }
}

/// The search for setting `S` from `c` goes on for at least `k` steps to a parent: at each, the
/// definition does not set it and names a parent that `all` holds.
pub open spec fn continues<C: Layered, S: Setting<C>>(all: NamedMap<C>, c: C, k: nat) -> bool
    decreases k,
{
    if k == 0 {
        true
    } else {
        &&& S::local(c) is None
        &&& c.parent_name() is Some
        &&& all.has(c.parent_name().unwrap())
        &&& continues::<C, S>(all, all.at(c.parent_name().unwrap()), (k - 1) as nat)
    }
}

/// The definition reached from `c` after `k` steps to a parent (a definition with no parent is
/// its own).
pub open spec fn reached<C: Layered>(all: NamedMap<C>, c: C, k: nat) -> C
    decreases k,
{
    if k == 0 {
        c
    } else {
        match c.parent_name() {
            Some(p) => reached(all, all.at(p), (k - 1) as nat),
            None => c,
        }
    }
}

/// A search has not ended within `f` steps just when it goes on for `f + 1` steps.
proof fn lemma_unfinished_continues<C: Layered, S: Setting<C>>(all: NamedMap<C>, c: C, f: nat)
    ensures
        resolution::<C, S>(all, c, f) is None <==> continues::<C, S>(all, c, f + 1),
    decreases f,
{
    assert((f + 1 - 1) as nat == f);
    if S::local(c) is None {
        if let Some(p) = c.parent_name() {
            if all.has(p) {
                if f > 0 {
                    lemma_unfinished_continues::<C, S>(all, all.at(p), (f - 1) as nat);
                    assert(resolution::<C, S>(all, c, f) == resolution::<C, S>(
                        all,
                        all.at(p),
                        (f - 1) as nat,
                    ));
                    assert(continues::<C, S>(all, c, f + 1) == continues::<C, S>(all, all.at(p), f));
                } else {
                    assert(continues::<C, S>(all, c, 1) == continues::<C, S>(all, all.at(p), 0));
                }
            }
        }
    }
}

proof fn lemma_reached_split<C: Layered>(all: NamedMap<C>, c: C, i: nat, j: nat)
    ensures
        reached(all, c, i + j) == reached(all, reached(all, c, i), j),
    decreases i,
{
    if i > 0 {
        if let Some(p) = c.parent_name() {
            lemma_reached_split(all, all.at(p), (i - 1) as nat, j);
            assert((i + j - 1) as nat == (i - 1) as nat + j);
        } else {
            lemma_reached_fixed(all, c, j);
            lemma_reached_fixed(all, c, i + j);
        }
    }
}

proof fn lemma_reached_fixed<C: Layered>(all: NamedMap<C>, c: C, j: nat)
    requires
        c.parent_name() is None,
    ensures
        reached(all, c, j) == c,
{
}

proof fn lemma_continues_split<C: Layered, S: Setting<C>>(all: NamedMap<C>, c: C, i: nat, j: nat)
    ensures
        continues::<C, S>(all, c, i + j) <==> continues::<C, S>(all, c, i) && continues::<C, S>(
            all,
            reached(all, c, i),
            j,
        ),
    decreases i,
{
    if i > 0 {
        if S::local(c) is None && c.parent_name() is Some && all.has(c.parent_name().unwrap()) {
            let p = c.parent_name().unwrap();
            lemma_continues_split::<C, S>(all, all.at(p), (i - 1) as nat, j);
            assert((i + j - 1) as nat == (i - 1) as nat + j);
        }
    }
}

proof fn lemma_continues_fewer<C: Layered, S: Setting<C>>(all: NamedMap<C>, c: C, k: nat, m: nat)
    requires
        continues::<C, S>(all, c, k),
        m <= k,
    ensures
        continues::<C, S>(all, c, m),
{
    lemma_continues_split::<C, S>(all, c, m, (k - m) as nat);
}

/// A search that comes back to a definition it has passed goes on for ever.
proof fn lemma_circle_continues<C: Layered, S: Setting<C>>(all: NamedMap<C>, x: C, d: nat, n: nat)
    requires
        d > 0,
        continues::<C, S>(all, x, d),
        reached(all, x, d) == x,
    ensures
        continues::<C, S>(all, x, n),
    decreases n,
{
    if n <= d {
        lemma_continues_fewer::<C, S>(all, x, d, n);
    } else {
        lemma_circle_continues::<C, S>(all, x, d, (n - d) as nat);
        lemma_continues_split::<C, S>(all, x, d, (n - d) as nat);
        assert(d + (n - d) as nat == n);
    }
}

/// Among more numbers than there are values below `n`, two are equal.
proof fn lemma_pigeonhole(s: Seq<int>, n: int)
    requires
        0 <= n < s.len(),
        forall|i: int| 0 <= i < s.len() ==> 0 <= #[trigger] s[i] < n,
    ensures
        exists|i: int, j: int| 0 <= i < j < s.len() && s[i] == s[j],
{
    if !(exists|i: int, j: int| 0 <= i < j < s.len() && s[i] == s[j]) {
        assert(s.no_duplicates()) by {
            assert forall|i: int, j: int| 0 <= i < s.len() && 0 <= j < s.len() && i != j implies s[i]
                != s[j] by {
                if i < j {
                    assert(!(s[i] == s[j]));
                } else {
                    assert(!(s[j] == s[i]));
                }
            }
        }
        s.unique_seq_to_set();
        lemma_int_range(0, n);
        assert(s.to_set().subset_of(set_int_range(0, n)));
        lemma_len_subset(s.to_set(), set_int_range(0, n));
    }
}

/// A search along the chain of parents that ends at all ends within as many steps as `all` has
/// definitions: otherwise it would pass some definition twice, and so go round for ever.
pub proof fn lemma_resolves_within_len<C: Layered, S: Setting<C>>(all: NamedMap<C>, cfg: C)
    ensures
        resolves::<C, S>(all, cfg) <==> resolution::<C, S>(all, cfg, all.pairs().len()) is Some,
{
    let n = all.pairs().len();
    if resolution::<C, S>(all, cfg, n) is None {
        lemma_unfinished_continues::<C, S>(all, cfg, n);
        // the positions of the definitions reached in steps 1 ..= n + 1
        let pos = Seq::new(
            n + 1,
            |t: int| all.position(reached(all, cfg, t as nat).parent_name().unwrap()),
        );
        assert forall|t: int| 0 <= t < pos.len() implies 0 <= #[trigger] pos[t] < n && all.at(
            reached(all, cfg, t as nat).parent_name().unwrap(),
        ) == reached(all, cfg, (t + 1) as nat) by {
            lemma_continues_split::<C, S>(all, cfg, t as nat, (n + 1 - t) as nat);
            assert(t as nat + (n + 1 - t) as nat == n + 1);
            let r = reached(all, cfg, t as nat);
            assert(continues::<C, S>(all, r, (n + 1 - t) as nat));
            assert(r.parent_name() is Some);
            let pn = r.parent_name().unwrap();
            assert(all.has(pn));
            let k = all.position(pn);
            assert(0 <= k < all.pairs().len() && all.pairs()[k].0 == pn);
            assert(pos[t] == k);
            lemma_reached_split(all, cfg, t as nat, 1);
            assert(reached(all, r, 1) == reached(all, all.at(pn), 0));
        }
        lemma_pigeonhole(pos, n as int);
        let (i, j) = choose|i: int, j: int| 0 <= i < j < pos.len() && pos[i] == pos[j];
        let x = reached(all, cfg, (i + 1) as nat);
        let d = (j - i) as nat;
        assert(x == reached(all, cfg, (j + 1) as nat)) by {
            let pi = reached(all, cfg, i as nat).parent_name().unwrap();
            let pj = reached(all, cfg, j as nat).parent_name().unwrap();
            assert(all.at(pi) == all.pairs()[pos[i]].1);
            assert(all.at(pj) == all.pairs()[pos[j]].1);
        }
        lemma_reached_split(all, cfg, (i + 1) as nat, d);
        assert((i + 1) as nat + d == (j + 1) as nat);
        lemma_continues_split::<C, S>(all, cfg, (i + 1) as nat, (n - i) as nat);
        assert((i + 1) as nat + (n - i) as nat == n + 1);
        lemma_continues_fewer::<C, S>(all, x, (n - i) as nat, d);
        assert forall|f: nat| #[trigger] resolution::<C, S>(all, cfg, f) is None by {
            lemma_circle_continues::<C, S>(all, x, d, f);
            lemma_continues_split::<C, S>(all, cfg, (i + 1) as nat, f);
            lemma_continues_fewer::<C, S>(all, cfg, (i + 1) as nat + f, f + 1);
            lemma_unfinished_continues::<C, S>(all, cfg, f);
        }
    }
}

/// The chain of parents from `c` ends within `n` steps: a definition names no parent, or one that
/// `all` does not hold.
pub open spec fn ancestry_ends<C: Layered>(all: NamedMap<C>, c: C, n: nat) -> bool
    decreases n,
{
    match c.parent_name() {
        None => true,
        Some(p) => !all.has(p) || (n > 0 && ancestry_ends(all, all.at(p), (n - 1) as nat)),
    }
}

/// Where the chain of parents ends, every setting's search ends.
pub proof fn lemma_ancestry_resolves<C: Layered, S: Setting<C>>(all: NamedMap<C>, c: C, n: nat)
    requires
        ancestry_ends(all, c, n),
    ensures
        resolution::<C, S>(all, c, n) is Some,
        resolves::<C, S>(all, c),
    decreases n,
{
    if S::local(c) is None {
        if let Some(p) = c.parent_name() {
            if all.has(p) {
                lemma_ancestry_resolves::<C, S>(all, all.at(p), (n - 1) as nat);
            }
        }
    }
}

/// Where the chain of parents ends, a definition that does not set a setting, and whose parent
/// `all` holds, has the value its parent has.
pub proof fn lemma_ancestry_inherits<C: Layered, S: Setting<C>>(all: NamedMap<C>, cfg: C, n: nat)
    requires
        ancestry_ends(all, cfg, n),
        S::local(cfg) is None,
        cfg.parent_name() is Some,
        all.has(cfg.parent_name().unwrap()),
    ensures
        resolves::<C, S>(all, cfg),
        resolved::<C, S>(all, cfg) == resolved::<C, S>(all, all.at(cfg.parent_name().unwrap())),
{
    lemma_ancestry_resolves::<C, S>(all, cfg, n);
    lemma_inherited_from_parent::<C, S>(all, cfg);
}

/// Whether the search for setting `S` from `cfg` along its chain of parents ends.
pub fn lookup_ends<C: Layered, S: Setting<C>>(cfg: &C, all: &NamedMap<C>) -> (r: bool)
    ensures
        r == resolves::<C, S>(*all, *cfg),
{
    proof {
        lemma_resolves_within_len::<C, S>(*all, *cfg);
    }
    let ghost goal = resolution::<C, S>(*all, *cfg, all.pairs().len());
    let mut cur: &C = cfg;
    let mut left: usize = all.len();
    loop
        invariant
            resolution::<C, S>(*all, *cur, left as nat) == goal,
            goal == resolution::<C, S>(*all, *cfg, all.pairs().len()),
            resolves::<C, S>(*all, *cfg) <==> goal is Some,
        decreases left,
    {
        if S::pick(cur).is_some() {
            return true;
        }
        match cur.inherits() {
            None => {
                return true;
            },
            Some(p) => match all.get(p.as_str()) {
                None => {
                    return true;
                },
                Some(parent) => {
                    if left == 0 {
                        return false;
                    }
                    cur = parent;
                    left = left - 1;
                },
            },
        }
    }
}

/// The setting `S` of `cfg`, looked up along its chain of parents in `all`.
pub fn resolve<C: Layered, S: Setting<C>>(cfg: &C, all: &NamedMap<C>) -> (r: Option<S::Value>)
    requires
        resolves::<C, S>(*all, *cfg),
    ensures
        r == resolved::<C, S>(*all, *cfg),
{
    let ghost fuel: nat = choose|fuel: nat| #[trigger] resolution::<C, S>(*all, *cfg, fuel) is Some;
    let ghost goal = resolution::<C, S>(*all, *cfg, fuel);
    assert(goal is Some);
    assert(resolved::<C, S>(*all, *cfg) == goal.unwrap());
    let mut cur: &C = cfg;
    let ghost mut left: nat = fuel;
    loop
        invariant
            resolution::<C, S>(*all, *cur, left) == goal,
            goal is Some,
            resolved::<C, S>(*all, *cfg) == goal.unwrap(),
        decreases left,
    {
        if let Some(v) = S::pick(cur) {
            return Some(v);
        }
        match cur.inherits() {
            None => {
                return None;
            },
            Some(p) => match all.get(p.as_str()) {
                None => {
                    return None;
                },
                Some(parent) => {
                    cur = parent;
                    proof {
                        left = (left - 1) as nat;
                    }
                },
            },
        }
    }
}

} // verus!
