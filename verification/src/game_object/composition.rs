//! From a template's capabilities to an entity's components.
//!
//! The template data names, for each template, a set of capability tags in no particular
//! order and perhaps more than once. That set becomes the list of components of an entity by
//!
//! - *ordering*: the tags are put in the order of a fixed priority table, each tag once.
//!   Snapshots list components by position, so this order is part of what clients are told.
//!   Tags that the table does not hold follow the others, the smaller tag first;
//! - *patching*: a table of override rules patches the list. A tag of the list brings with it
//!   what a rule requires with it, and one tag of the list removes others. A tag that was
//!   brought brings nothing in its turn. The patched list is in the same order, each tag
//!   once;
//! - *building*: each tag of the list is turned into its component. A few tags stand for
//!   facets that need no component; a tag that is neither of those nor known is a fatal
//!   error for the entity.
//!
//! The list depends on which tags the template data names, and on nothing else.
use vstd::prelude::*;
use crate::error::{Error, Res};
use crate::math::SpawnConfig;
use super::component::Component;
use super::GameObject;

verus! {

/// The priority table: capability tags in composition order.
pub const COMP_ORDER: [u32; 35] = [
    108, 61, 1, 30, 20, 3, 40, 98, 7, 110, 109, 106, 4, 26, 17, 5, 9, 60, 11, 48, 25, 16, 100,
    102, 19, 39, 23, 75, 42, 6, 49, 2, 44, 71, 107,
];

/// Capabilities that need no component.
pub const NO_COMPONENT: [u32; 23] = [
    2, 12, 24, 27, 31, 35, 36, 43, 45, 55, 56, 57, 64, 65, 67, 68, 73, 74, 78, 95, 104, 113, 114,
];

/// Override rules `(trigger, required)`: a list that names `trigger` is given `required` too.
/// A rule looks at the list as it was before any rule was applied: what a rule has added
/// triggers no rule.
pub const REQUIRES: [(u32, u32); 7] = [
    (2, 44), (4, 110), (4, 109), (4, 106), (7, 98), (23, 7), (48, 7),
];

/// Override rules `(trigger, suppressed)`: a list that names `trigger` loses `suppressed`.
pub const SUPPRESSES: [(u32, u32); 2] = [(26, 11), (26, 42)];

/// The rank of a capability tag: its position in the priority table, or the table's length
/// for a tag that the table does not hold.
pub open spec fn spec_rank(tag: u32) -> int {
    if COMP_ORDER@.contains(tag) {
        COMP_ORDER@.index_of(tag)
    } else {
        COMP_ORDER@.len() as int
    }
}

/// Whether the priority table holds `tag`.
pub open spec fn is_ranked(tag: u32) -> bool {
    COMP_ORDER@.contains(tag)
}

/// The place of a tag in the composition order. The tags of the priority table come first,
/// in the order of the table; every other tag comes behind them, the smaller tag first.
pub open spec fn spec_key(tag: u32) -> int {
    if is_ranked(tag) {
        spec_rank(tag)
    } else {
        COMP_ORDER@.len() + tag
    }
}

/// Whether a list is in composition order and holds no tag twice: from each tag to the
/// next, the place in the composition order rises.
pub open spec fn strictly_prioritized(comps: Seq<u32>) -> bool {
    forall|i: int, j: int|
        0 <= i < j < comps.len() ==> spec_key(#[trigger] comps[i]) < spec_key(
            #[trigger] comps[j],
        )
}

/// The list `sorted`, which is in composition order, with `tag` put in at its place, unless
/// the list holds `tag` already.
pub open spec fn spec_insert(sorted: Seq<u32>, tag: u32) -> Seq<u32>
    decreases sorted.len(),
{
    if sorted.len() == 0 {
        seq![tag]
    } else if spec_key(tag) < spec_key(sorted[0]) {
        seq![tag] + sorted
    } else if spec_key(tag) == spec_key(sorted[0]) {
        sorted
    } else {
        seq![sorted[0]] + spec_insert(sorted.drop_first(), tag)
    }
}

/// The first `n` tags of `raw` in composition order, each once.
pub open spec fn spec_prioritize_first(raw: Seq<u32>, n: int) -> Seq<u32>
    decreases n,
{
    if n <= 0 {
        Seq::empty()
    } else {
        spec_insert(spec_prioritize_first(raw, n - 1), raw[n - 1])
    }
}

/// Ordering. The tags of `raw` in composition order, each once.
pub open spec fn spec_prioritize(raw: Seq<u32>) -> Seq<u32> {
    spec_prioritize_first(raw, raw.len() as int)
}

/// The list `input` with what the first `n` rules of `REQUIRES` require with a tag of
/// `input`, added at the end where the list lacks it.
pub open spec fn spec_require(input: Seq<u32>, n: int) -> Seq<u32>
    decreases n,
{
    if n <= 0 {
        input
    } else {
        let so_far = spec_require(input, n - 1);
        if input.contains(REQUIRES@[n - 1].0) && !so_far.contains(REQUIRES@[n - 1].1) {
            so_far.push(REQUIRES@[n - 1].1)
        } else {
            so_far
        }
    }
}

/// The first `n` tags of `listed` without every listing of `tag`.
pub open spec fn spec_without(listed: Seq<u32>, tag: u32, n: int) -> Seq<u32>
    decreases n,
{
    if n <= 0 {
        Seq::empty()
    } else if listed[n - 1] == tag {
        spec_without(listed, tag, n - 1)
    } else {
        spec_without(listed, tag, n - 1).push(listed[n - 1])
    }
}

/// The list `listed` without every listing of what the first `n` rules of `SUPPRESSES`
/// suppress beside a tag of `input`.
pub open spec fn spec_suppress(input: Seq<u32>, listed: Seq<u32>, n: int) -> Seq<u32>
    decreases n,
{
    if n <= 0 {
        listed
    } else {
        let so_far = spec_suppress(input, listed, n - 1);
        if input.contains(SUPPRESSES@[n - 1].0) {
            spec_without(so_far, SUPPRESSES@[n - 1].1, so_far.len() as int)
        } else {
            so_far
        }
    }
}

/// The tags of `comps`, then what the rules require with them, without what the rules
/// suppress beside them.
pub open spec fn spec_patch(comps: Seq<u32>) -> Seq<u32> {
    spec_suppress(comps, spec_require(comps, REQUIRES@.len() as int), SUPPRESSES@.len() as int)
}

/// Patching. The list `comps` with every override rule applied, in composition order, each
/// tag once.
pub open spec fn spec_apply_overrides(comps: Seq<u32>) -> Seq<u32> {
    spec_prioritize(spec_patch(comps))
}

/// Ordering and patching. The capability list of a template whose raw capabilities are
/// `raw`.
pub open spec fn spec_compose(raw: Seq<u32>) -> Seq<u32> {
    spec_apply_overrides(spec_prioritize(raw))
}

/// Whether one of the first `n` rules of `REQUIRES` requires `tag` with a tag of `input`.
pub open spec fn spec_required_by(input: Seq<u32>, tag: u32, n: int) -> bool {
    exists|k: int|
        0 <= k < n && (#[trigger] REQUIRES@[k]).1 == tag && input.contains(REQUIRES@[k].0)
}

/// Whether one of the first `n` rules of `SUPPRESSES` suppresses `tag` beside a tag of
/// `input`.
pub open spec fn spec_suppressed_by(input: Seq<u32>, tag: u32, n: int) -> bool {
    exists|k: int|
        0 <= k < n && (#[trigger] SUPPRESSES@[k]).1 == tag && input.contains(SUPPRESSES@[k].0)
}

/// Whether a rule requires `tag` with a tag of `input`.
pub open spec fn spec_required_with(input: Seq<u32>, tag: u32) -> bool {
    spec_required_by(input, tag, REQUIRES@.len() as int)
}

/// Whether a rule suppresses `tag` beside a tag of `input`.
pub open spec fn spec_suppressed_beside(input: Seq<u32>, tag: u32) -> bool {
    spec_suppressed_by(input, tag, SUPPRESSES@.len() as int)
}

/// Whether the override rules list `tag` for a list that names the tags `input`: the list
/// names the tag, or a rule requires it with a tag that the list names, and no rule
/// suppresses it beside a tag that the list names.
pub open spec fn spec_listed(input: Seq<u32>, tag: u32) -> bool {
    (input.contains(tag) || spec_required_with(input, tag)) && !spec_suppressed_beside(input, tag)
}

/// Whether the capability `tag` needs no component.
pub open spec fn spec_needs_no_component(tag: u32) -> bool {
    NO_COMPONENT@.contains(tag)
}

/// Building, for the first `n` tags of `comps`: their components, or the first tag among them
/// that is neither known nor exempt.
pub open spec fn spec_create(comps: Seq<u32>, config: &SpawnConfig, n: int) -> Res<
    Seq<Component>,
>
    decreases n,
{
    if n <= 0 {
        Ok(Seq::empty())
    } else {
        match spec_create(comps, config, n - 1) {
            Err(e) => Err(e),
            Ok(built) => if spec_needs_no_component(comps[n - 1]) {
                Ok(built)
            } else {
                match Component::spec_new_c(comps[n - 1], config) {
                    Some(c) => Ok(built.push(c)),
                    None => Err(Error::UnknownComponent(comps[n - 1])),
                }
            },
        }
    }
}

/// Building. The components for the capability list `comps`.
pub open spec fn spec_create_components(comps: Seq<u32>, config: &SpawnConfig) -> Res<
    Seq<Component>,
> {
    spec_create(comps, config, comps.len() as int)
}

/// Whether `v` holds `x`.
pub fn contains(v: &Vec<u32>, x: u32) -> (found: bool)
    ensures
        found == v@.contains(x),
{
    let mut i: usize = 0;
    while i < v.len()
        invariant
            i <= v.len(),
            forall|j: int| 0 <= j < i ==> v@[j] != x,
        decreases v.len() - i,
    {
        if v[i] == x {
            return true;
        }
        i += 1;
    }
    false
}

/// Whether the priority table holds `tag`.
pub fn ranked(tag: u32) -> (found: bool)
    ensures
        found == is_ranked(tag),
{
    let mut i: usize = 0;
    while i < COMP_ORDER.len()
        invariant
            i <= COMP_ORDER@.len(),
            forall|j: int| 0 <= j < i ==> COMP_ORDER@[j] != tag,
        decreases COMP_ORDER@.len() - i,
    {
        if COMP_ORDER[i] == tag {
            return true;
        }
        i += 1;
    }
    false
}

/// Whether the capability `tag` needs no component.
pub fn needs_no_component(tag: u32) -> (exempt: bool)
    ensures
        exempt == spec_needs_no_component(tag),
{
    let mut i: usize = 0;
    while i < NO_COMPONENT.len()
        invariant
            i <= NO_COMPONENT@.len(),
            forall|j: int| 0 <= j < i ==> NO_COMPONENT@[j] != tag,
        decreases NO_COMPONENT@.len() - i,
    {
        if NO_COMPONENT[i] == tag {
            return true;
        }
        i += 1;
    }
    false
}

/// The place of a tag in the composition order.
pub fn priority_key(tag: u32) -> (key: u64)
    ensures
        key == spec_key(tag),
{
    let mut i: usize = 0;
    while i < COMP_ORDER.len()
        invariant
            i <= COMP_ORDER@.len(),
            COMP_ORDER@.len() == 35,
            forall|j: int| 0 <= j < i ==> COMP_ORDER@[j] != tag,
        decreases COMP_ORDER@.len() - i,
    {
        if COMP_ORDER[i] == tag {
            proof {
                assert(COMP_ORDER@.contains(tag));
                lemma_rank_is_position(tag);
                lemma_table_entry_rank(i as int);
            }
            return i as u64;
        }
        i += 1;
    }
    35 + tag as u64
}

/// Puts `tag` into the list `sorted`, which is in composition order, at its place. A list
/// that holds `tag` already stays as it is.
pub fn insert(sorted: &mut Vec<u32>, tag: u32)
    ensures
        final(sorted)@ == spec_insert(old(sorted)@, tag),
{
    let key = priority_key(tag);
    let mut i: usize = 0;
    while i < sorted.len()
        invariant
            i <= sorted@.len(),
            sorted@ == old(sorted)@,
            key == spec_key(tag),
            forall|j: int| 0 <= j < i ==> spec_key(sorted@[j]) < key,
        decreases sorted@.len() - i,
    {
        let here = priority_key(sorted[i]);
        if key < here {
            proof {
                lemma_insert_at(sorted@, tag, i as int);
            }
            sorted.insert(i, tag);
            return ;
        }
        if key == here {
            proof {
                lemma_insert_at(sorted@, tag, i as int);
            }
            return ;
        }
        i += 1;
    }
    proof {
        lemma_insert_at(sorted@, tag, i as int);
    }
    sorted.push(tag);
}

/// Ordering. Puts the tags of `raw` in composition order, each once: first the tags of the
/// priority table, in the order of the table, then every other tag, the smaller first.
pub fn prioritize(raw: &Vec<u32>) -> (comps: Vec<u32>)
    ensures
        comps@ == spec_prioritize(raw@),
        strictly_prioritized(comps@),
        comps@.no_duplicates(),
        forall|tag: u32| #[trigger] comps@.contains(tag) <==> raw@.contains(tag),
{
    let mut comps: Vec<u32> = Vec::new();
    let mut i: usize = 0;
    while i < raw.len()
        invariant
            i <= raw@.len(),
            comps@ == spec_prioritize_first(raw@, i as int),
        decreases raw@.len() - i,
    {
        insert(&mut comps, raw[i]);
        i += 1;
    }
    proof {
        lemma_prioritize(raw@);
    }
    comps
}

/// The list `listed` without every listing of `tag`.
pub fn without(listed: &Vec<u32>, tag: u32) -> (rest: Vec<u32>)
    ensures
        rest@ == spec_without(listed@, tag, listed@.len() as int),
{
    let mut rest: Vec<u32> = Vec::new();
    let mut i: usize = 0;
    while i < listed.len()
        invariant
            i <= listed@.len(),
            rest@ == spec_without(listed@, tag, i as int),
        decreases listed@.len() - i,
    {
        if listed[i] != tag {
            rest.push(listed[i]);
        }
        i += 1;
    }
    rest
}

/// Ordering and patching. The capability list of a template whose raw capabilities are
/// `raw`: in composition order, no tag twice, and holding exactly what the override rules
/// list for the tags that `raw` names.
pub fn compose(raw: &Vec<u32>) -> (comps: Vec<u32>)
    ensures
        comps@ == spec_compose(raw@),
        strictly_prioritized(comps@),
        comps@.no_duplicates(),
        forall|tag: u32| #[trigger] comps@.contains(tag) <==> spec_listed(raw@, tag),
{
    let ordered = prioritize(raw);
    let comps = GameObject::apply_component_overrides(&ordered);
    proof {
        lemma_compose(raw@);
        let composed = spec_compose(raw@);
        assert(comps@ == composed);
        assert forall|tag: u32| #[trigger] comps@.contains(tag) <==> spec_listed(raw@, tag) by {
            assert(composed.contains(tag) <==> spec_listed(raw@, tag));
        }
    }
    comps
}

impl GameObject {
    /// Patching. Applies the override rules to `comps`. The result holds a tag exactly if
    /// `comps` names it or a rule requires it with a tag that `comps` names, and no rule
    /// suppresses it beside a tag that `comps` names. It is in composition order and holds
    /// no tag twice, so what a rule requires stands at its own place.
    pub fn apply_component_overrides(comps: &Vec<u32>) -> (final_comps: Vec<u32>)
        ensures
            final_comps@ == spec_apply_overrides(comps@),
            strictly_prioritized(final_comps@),
            final_comps@.no_duplicates(),
            forall|tag: u32| #[trigger] final_comps@.contains(tag) <==> spec_listed(comps@, tag),
    {
        let mut listed: Vec<u32> = Vec::new();
        let mut i: usize = 0;
        while i < comps.len()
            invariant
                i <= comps@.len(),
                listed@ == comps@.take(i as int),
            decreases comps@.len() - i,
        {
            listed.push(comps[i]);
            assert(listed@ =~= comps@.take(i as int + 1));
            i += 1;
        }
        assert(listed@ =~= comps@);
        let mut k: usize = 0;
        while k < REQUIRES.len()
            invariant
                k <= REQUIRES@.len(),
                listed@ == spec_require(comps@, k as int),
            decreases REQUIRES@.len() - k,
        {
            if contains(comps, REQUIRES[k].0) && !contains(&listed, REQUIRES[k].1) {
                listed.push(REQUIRES[k].1);
            }
            k += 1;
        }
        let ghost required = listed@;
        let mut k: usize = 0;
        while k < SUPPRESSES.len()
            invariant
                k <= SUPPRESSES@.len(),
                listed@ == spec_suppress(comps@, required, k as int),
            decreases SUPPRESSES@.len() - k,
        {
            if contains(comps, SUPPRESSES[k].0) {
                listed = without(&listed, SUPPRESSES[k].1);
            }
            k += 1;
        }
        let final_comps = prioritize(&listed);
        proof {
            lemma_overrides(comps@);
            let patched = spec_apply_overrides(comps@);
            assert(final_comps@ == patched);
            assert forall|tag: u32| #[trigger] final_comps@.contains(tag) <==> spec_listed(
                comps@,
                tag,
            ) by {
                assert(patched.contains(tag) <==> spec_listed(comps@, tag));
            }
        }
        final_comps
    }

    /// Building. Builds the components for the capability list `comps`, in the order of the list.
    /// Fails with the first tag that is neither known nor exempt; nothing is built then.
    pub fn create_components(comps: &Vec<u32>, config: &SpawnConfig) -> (r: Res<Vec<Component>>)
        ensures
            match r {
                Ok(components) => spec_create_components(comps@, config) == Ok::<
                    Seq<Component>,
                    Error,
                >(components@),
                Err(e) => spec_create_components(comps@, config) == Err::<Seq<Component>, Error>(e),
            },
            r is Ok <==> forall|i: int| 0 <= i < comps@.len() ==> spec_is_buildable(#[trigger] comps@[i]),
            r is Ok ==> spec_tags_of(r->Ok_0@) == spec_component_tags(comps@, comps@.len() as int),
            r is Err ==> exists|k: int|
                0 <= k < comps@.len() && !spec_is_buildable(#[trigger] comps@[k]) && r->Err_0
                    == Error::UnknownComponent(comps@[k]) && forall|i: int|
                    0 <= i < k ==> spec_is_buildable(#[trigger] comps@[i]),
    {
        proof {
            lemma_create(comps@, config, comps@.len() as int);
        }
        let mut components: Vec<Component> = Vec::new();
        let mut i: usize = 0;
        while i < comps.len()
            invariant
                i <= comps.len(),
                spec_create(comps@, config, i as int) == Ok::<Seq<Component>, Error>(components@),
            decreases comps.len() - i,
        {
            let comp = comps[i];
            if !needs_no_component(comp) {
                match Component::new_c(comp, config) {
                    Some(c) => {
                        components.push(c);
                    },
                    None => {
                        proof {
                            lemma_create_stays_failed(comps@, config, i as int + 1, comps@.len() as int);
                            lemma_create(comps@, config, comps@.len() as int);
                        }
                        return Err(Error::UnknownComponent(comp));
                    },
                }
            }
            i += 1;
        }
        Ok(components)
    }
}

/// Once building has failed at a tag, the tags behind it change nothing.
pub proof fn lemma_create_stays_failed(comps: Seq<u32>, config: &SpawnConfig, n: int, m: int)
    requires
        0 <= n <= m,
        spec_create(comps, config, n) is Err,
    ensures
        spec_create(comps, config, m) == spec_create(comps, config, n),
    decreases m - n,
{
    if n < m {
        lemma_create_stays_failed(comps, config, n, m - 1);
    }
}

/// No tag is in the priority table twice.
pub proof fn lemma_priority_table_has_no_duplicates()
    ensures
        COMP_ORDER@.no_duplicates(),
        COMP_ORDER@.len() == 35,
{
    assert(COMP_ORDER@.len() == 35);
    assert forall|i: int, j: int|
        0 <= i < COMP_ORDER@.len() && 0 <= j < COMP_ORDER@.len() && i != j implies COMP_ORDER@[i]
        != COMP_ORDER@[j] by {
        lemma_table_entry_rank(i);
        lemma_table_entry_rank(j);
    }
}

/// The position of a tag in the priority table, written out.
pub open spec fn spec_position_in_table(tag: u32) -> int {
    if tag == 108 {
        0
    } else if tag == 61 {
        1
    } else if tag == 1 {
        2
    } else if tag == 30 {
        3
    } else if tag == 20 {
        4
    } else if tag == 3 {
        5
    } else if tag == 40 {
        6
    } else if tag == 98 {
        7
    } else if tag == 7 {
        8
    } else if tag == 110 {
        9
    } else if tag == 109 {
        10
    } else if tag == 106 {
        11
    } else if tag == 4 {
        12
    } else if tag == 26 {
        13
    } else if tag == 17 {
        14
    } else if tag == 5 {
        15
    } else if tag == 9 {
        16
    } else if tag == 60 {
        17
    } else if tag == 11 {
        18
    } else if tag == 48 {
        19
    } else if tag == 25 {
        20
    } else if tag == 16 {
        21
    } else if tag == 100 {
        22
    } else if tag == 102 {
        23
    } else if tag == 19 {
        24
    } else if tag == 39 {
        25
    } else if tag == 23 {
        26
    } else if tag == 75 {
        27
    } else if tag == 42 {
        28
    } else if tag == 6 {
        29
    } else if tag == 49 {
        30
    } else if tag == 2 {
        31
    } else if tag == 44 {
        32
    } else if tag == 71 {
        33
    } else if tag == 107 {
        34
    } else {
        35
    }
}

/// The priority table, entry by entry.
proof fn lemma_table_entries()
    ensures
        COMP_ORDER@.len() == 35,
        COMP_ORDER@[0] == 108 && COMP_ORDER@[1] == 61 && COMP_ORDER@[2] == 1 && COMP_ORDER@[3]
            == 30 && COMP_ORDER@[4] == 20 && COMP_ORDER@[5] == 3 && COMP_ORDER@[6] == 40
            && COMP_ORDER@[7] == 98,
        COMP_ORDER@[8] == 7 && COMP_ORDER@[9] == 110 && COMP_ORDER@[10] == 109 && COMP_ORDER@[11]
            == 106 && COMP_ORDER@[12] == 4 && COMP_ORDER@[13] == 26 && COMP_ORDER@[14] == 17
            && COMP_ORDER@[15] == 5,
        COMP_ORDER@[16] == 9 && COMP_ORDER@[17] == 60 && COMP_ORDER@[18] == 11 && COMP_ORDER@[19]
            == 48 && COMP_ORDER@[20] == 25 && COMP_ORDER@[21] == 16 && COMP_ORDER@[22] == 100
            && COMP_ORDER@[23] == 102,
        COMP_ORDER@[24] == 19 && COMP_ORDER@[25] == 39 && COMP_ORDER@[26] == 23 && COMP_ORDER@[27]
            == 75 && COMP_ORDER@[28] == 42 && COMP_ORDER@[29] == 6 && COMP_ORDER@[30] == 49
            && COMP_ORDER@[31] == 2 && COMP_ORDER@[32] == 44 && COMP_ORDER@[33] == 71
            && COMP_ORDER@[34] == 107,
{
}

/// The entry at position `i` of the priority table has the written-out position `i`.
pub proof fn lemma_table_entry_rank(i: int)
    requires
        0 <= i < COMP_ORDER@.len(),
    ensures
        spec_position_in_table(COMP_ORDER@[i]) == i,
{
    lemma_table_entries();
}

/// The rank of a tag is its written-out position.
pub proof fn lemma_rank_is_position(tag: u32)
    ensures
        spec_rank(tag) == spec_position_in_table(tag),
        is_ranked(tag) <==> spec_position_in_table(tag) < 35,
{
    assert(COMP_ORDER@.len() == 35);
    if COMP_ORDER@.contains(tag) {
        let i = COMP_ORDER@.index_of(tag);
        lemma_table_entry_rank(i);
    } else {
        let p = spec_position_in_table(tag);
        if p < 35 {
            lemma_table_entry_rank(p);
            lemma_position_names_entry(tag);
            assert(COMP_ORDER@[p] == tag);
        }
    }
}

/// A tag with a written-out position below 35 stands at that position of the table.
pub proof fn lemma_position_names_entry(tag: u32)
    requires
        spec_position_in_table(tag) < 35,
    ensures
        COMP_ORDER@[spec_position_in_table(tag)] == tag,
{
    lemma_table_entries();
}

/// The two tables of override rules, entry by entry.
proof fn lemma_rule_tables()
    ensures
        REQUIRES@.len() == 7,
        REQUIRES@[0] == (2u32, 44u32) && REQUIRES@[1] == (4u32, 110u32) && REQUIRES@[2] == (
            4u32,
            109u32,
        ) && REQUIRES@[3] == (4u32, 106u32) && REQUIRES@[4] == (7u32, 98u32) && REQUIRES@[5] == (
            23u32,
            7u32,
        ) && REQUIRES@[6] == (48u32, 7u32),
        SUPPRESSES@.len() == 2,
        SUPPRESSES@[0] == (26u32, 11u32) && SUPPRESSES@[1] == (26u32, 42u32),
{
}

/// No two tags share a place in the composition order.
pub proof fn lemma_key_is_one_to_one(a: u32, b: u32)
    ensures
        spec_key(a) == spec_key(b) ==> a == b,
        is_ranked(a) ==> 0 <= spec_key(a) < 35,
        !is_ranked(a) ==> spec_key(a) >= 35,
{
    lemma_rank_is_position(a);
    lemma_rank_is_position(b);
    if is_ranked(a) {
        lemma_position_names_entry(a);
    }
    if is_ranked(b) {
        lemma_position_names_entry(b);
    }
    assert(COMP_ORDER@.len() == 35);
}

/// A list that is in composition order holds no tag twice.
pub proof fn lemma_prioritized_has_no_duplicates(comps: Seq<u32>)
    requires
        strictly_prioritized(comps),
    ensures
        comps.no_duplicates(),
{
    assert forall|i: int, j: int|
        0 <= i < comps.len() && 0 <= j < comps.len() && i != j implies comps[i] != comps[j] by {
        if i < j {
            assert(spec_key(comps[i]) < spec_key(comps[j]));
        } else {
            assert(spec_key(comps[j]) < spec_key(comps[i]));
        }
    }
}

/// Where `spec_insert` puts a tag: behind the tags that come before it in the composition
/// order.
proof fn lemma_insert_at(sorted: Seq<u32>, tag: u32, i: int)
    requires
        0 <= i <= sorted.len(),
        forall|j: int| 0 <= j < i ==> spec_key(sorted[j]) < spec_key(tag),
    ensures
        i == sorted.len() ==> spec_insert(sorted, tag) == sorted.push(tag),
        i < sorted.len() && spec_key(tag) < spec_key(sorted[i]) ==> spec_insert(sorted, tag)
            == sorted.insert(i, tag),
        i < sorted.len() && spec_key(tag) == spec_key(sorted[i]) ==> spec_insert(sorted, tag)
            == sorted,
    decreases i,
{
    if i == 0 {
        if sorted.len() == 0 {
            assert(seq![tag] =~= sorted.push(tag));
        } else if spec_key(tag) < spec_key(sorted[0]) {
            assert(seq![tag] + sorted =~= sorted.insert(0, tag));
        }
    } else {
        let rest = sorted.drop_first();
        assert(spec_key(sorted[0]) < spec_key(tag));
        assert forall|j: int| 0 <= j < i - 1 implies spec_key(rest[j]) < spec_key(tag) by {
            assert(rest[j] == sorted[j + 1]);
        }
        lemma_insert_at(rest, tag, i - 1);
        assert(spec_insert(sorted, tag) == seq![sorted[0]] + spec_insert(rest, tag));
        if i == sorted.len() {
            assert(seq![sorted[0]] + rest.push(tag) =~= sorted.push(tag));
        } else {
            assert(rest[i - 1] == sorted[i]);
            if spec_key(tag) < spec_key(sorted[i]) {
                assert(seq![sorted[0]] + rest.insert(i - 1, tag) =~= sorted.insert(i, tag));
            } else if spec_key(tag) == spec_key(sorted[i]) {
                assert(seq![sorted[0]] + rest =~= sorted);
            }
        }
    }
}

/// Putting a tag into a list that is in composition order leaves the list in composition
/// order, and adds the tag to it and nothing else.
pub proof fn lemma_insert(sorted: Seq<u32>, tag: u32)
    requires
        strictly_prioritized(sorted),
    ensures
        strictly_prioritized(spec_insert(sorted, tag)),
        forall|x: u32| #[trigger]
            spec_insert(sorted, tag).contains(x) <==> sorted.contains(x) || x == tag,
    decreases sorted.len(),
{
    let now = spec_insert(sorted, tag);
    if sorted.len() == 0 {
        assert(now[0] == tag);
    } else if spec_key(tag) < spec_key(sorted[0]) {
        assert(now[0] == tag);
        assert forall|i: int, j: int| 0 <= i < j < now.len() implies spec_key(#[trigger] now[i])
            < spec_key(#[trigger] now[j]) by {
            assert(now[j] == sorted[j - 1]);
            if i > 0 {
                assert(now[i] == sorted[i - 1]);
            } else if j > 1 {
                assert(spec_key(sorted[0]) < spec_key(sorted[j - 1]));
            }
        }
        assert forall|x: u32| #[trigger] now.contains(x) <==> sorted.contains(x) || x == tag by {
            if now.contains(x) {
                let at = choose|at: int| 0 <= at < now.len() && now[at] == x;
                if at > 0 {
                    assert(sorted[at - 1] == x);
                }
            }
            if sorted.contains(x) {
                let at = choose|at: int| 0 <= at < sorted.len() && sorted[at] == x;
                assert(now[at + 1] == x);
            }
        }
    } else if spec_key(tag) == spec_key(sorted[0]) {
        lemma_key_is_one_to_one(tag, sorted[0]);
        assert(sorted[0] == tag);
    } else {
        let rest = sorted.drop_first();
        let inner = spec_insert(rest, tag);
        assert forall|i: int, j: int| 0 <= i < j < rest.len() implies spec_key(#[trigger] rest[i])
            < spec_key(#[trigger] rest[j]) by {
            assert(rest[i] == sorted[i + 1] && rest[j] == sorted[j + 1]);
        }
        lemma_insert(rest, tag);
        assert(now == seq![sorted[0]] + inner);
        assert forall|j: int| 0 <= j < inner.len() implies spec_key(sorted[0]) < spec_key(
            #[trigger] inner[j],
        ) by {
            assert(inner.contains(inner[j]));
            if inner[j] != tag {
                assert(rest.contains(inner[j]));
                let at = choose|at: int| 0 <= at < rest.len() && rest[at] == inner[j];
                assert(sorted[at + 1] == inner[j]);
                assert(spec_key(sorted[0]) < spec_key(sorted[at + 1]));
            }
        }
        assert forall|i: int, j: int| 0 <= i < j < now.len() implies spec_key(#[trigger] now[i])
            < spec_key(#[trigger] now[j]) by {
            assert(now[j] == inner[j - 1]);
            if i > 0 {
                assert(now[i] == inner[i - 1]);
            } else {
                assert(now[0] == sorted[0]);
            }
        }
        assert forall|x: u32| #[trigger] now.contains(x) <==> sorted.contains(x) || x == tag by {
            if now.contains(x) {
                let at = choose|at: int| 0 <= at < now.len() && now[at] == x;
                if at > 0 {
                    assert(inner[at - 1] == x);
                    assert(inner.contains(x));
                    if x != tag {
                        assert(rest.contains(x));
                        let was = choose|was: int| 0 <= was < rest.len() && rest[was] == x;
                        assert(sorted[was + 1] == x);
                    }
                } else {
                    assert(sorted[0] == x);
                }
            }
            if sorted.contains(x) || x == tag {
                if x == sorted[0] {
                    assert(now[0] == x);
                } else {
                    if x != tag {
                        let was = choose|was: int| 0 <= was < sorted.len() && sorted[was] == x;
                        assert(rest[was - 1] == x);
                        assert(rest.contains(x));
                    }
                    assert(inner.contains(x));
                    let at = choose|at: int| 0 <= at < inner.len() && inner[at] == x;
                    assert(now[at + 1] == x);
                }
            }
        }
    }
}

/// The first `n` tags of a raw list, once ordered, are in composition order and are the tags
/// they were.
proof fn lemma_prioritize_first(raw: Seq<u32>, n: int)
    requires
        0 <= n <= raw.len(),
    ensures
        strictly_prioritized(spec_prioritize_first(raw, n)),
        forall|x: u32| #[trigger]
            spec_prioritize_first(raw, n).contains(x) <==> raw.take(n).contains(x),
    decreases n,
{
    let now = spec_prioritize_first(raw, n);
    let upto = raw.take(n);
    if n > 0 {
        let before = spec_prioritize_first(raw, n - 1);
        let shorter = raw.take(n - 1);
        lemma_prioritize_first(raw, n - 1);
        lemma_insert(before, raw[n - 1]);
        assert forall|x: u32| #[trigger] now.contains(x) <==> upto.contains(x) by {
            if now.contains(x) {
                if x == raw[n - 1] {
                    assert(upto[n - 1] == x);
                } else {
                    assert(before.contains(x));
                    assert(shorter.contains(x));
                    let at = choose|at: int| 0 <= at < shorter.len() && shorter[at] == x;
                    assert(upto[at] == x);
                }
            }
            if upto.contains(x) {
                let at = choose|at: int| 0 <= at < upto.len() && upto[at] == x;
                if at < n - 1 {
                    assert(shorter[at] == x);
                    assert(shorter.contains(x));
                    assert(before.contains(x));
                }
            }
        }
    }
}

/// Ordering loses no tag and invents none, and what it yields is in composition order and
/// holds no tag twice.
pub proof fn lemma_prioritize(raw: Seq<u32>)
    ensures
        strictly_prioritized(spec_prioritize(raw)),
        spec_prioritize(raw).no_duplicates(),
        forall|tag: u32| #[trigger] spec_prioritize(raw).contains(tag) <==> raw.contains(tag),
{
    lemma_prioritize_first(raw, raw.len() as int);
    assert(raw.take(raw.len() as int) =~= raw);
    lemma_prioritized_has_no_duplicates(spec_prioritize(raw));
}

/// Two lists in composition order that hold the same tags are the same list.
pub proof fn lemma_one_list_per_set(a: Seq<u32>, b: Seq<u32>)
    requires
        strictly_prioritized(a),
        strictly_prioritized(b),
        forall|tag: u32| a.contains(tag) <==> b.contains(tag),
    ensures
        a == b,
    decreases a.len(),
{
    if a.len() == 0 {
        if b.len() > 0 {
            assert(b.contains(b[0]));
            assert(a.contains(b[0]));
        }
        assert(a =~= b);
    } else {
        let last = a.last();
        assert(a.contains(last));
        assert(b.contains(last));
        let at = choose|at: int| 0 <= at < b.len() && b[at] == last;
        if at < b.len() - 1 {
            let later = b[b.len() - 1];
            assert(spec_key(b[at]) < spec_key(later));
            assert(b.contains(later));
            assert(a.contains(later));
            let was = choose|was: int| 0 <= was < a.len() && a[was] == later;
            if was < a.len() - 1 {
                assert(spec_key(a[was]) < spec_key(a[a.len() - 1]));
            }
        }
        assert(b.last() == last);
        let a_rest = a.drop_last();
        let b_rest = b.drop_last();
        assert forall|tag: u32| a_rest.contains(tag) <==> b_rest.contains(tag) by {
            if a_rest.contains(tag) {
                let i = choose|i: int| 0 <= i < a_rest.len() && a_rest[i] == tag;
                assert(a[i] == tag);
                assert(spec_key(a[i]) < spec_key(a[a.len() - 1]));
                assert(a.contains(tag));
                assert(b.contains(tag));
                let j = choose|j: int| 0 <= j < b.len() && b[j] == tag;
                assert(j < b.len() - 1);
                assert(b_rest[j] == tag);
            }
            if b_rest.contains(tag) {
                let j = choose|j: int| 0 <= j < b_rest.len() && b_rest[j] == tag;
                assert(b[j] == tag);
                assert(spec_key(b[j]) < spec_key(b[b.len() - 1]));
                assert(b.contains(tag));
                assert(a.contains(tag));
                let i = choose|i: int| 0 <= i < a.len() && a[i] == tag;
                assert(i < a.len() - 1);
                assert(a_rest[i] == tag);
            }
        }
        assert forall|i: int, j: int| 0 <= i < j < a_rest.len() implies spec_key(
            #[trigger] a_rest[i],
        ) < spec_key(#[trigger] a_rest[j]) by {
            assert(a_rest[i] == a[i] && a_rest[j] == a[j]);
        }
        assert forall|i: int, j: int| 0 <= i < j < b_rest.len() implies spec_key(
            #[trigger] b_rest[i],
        ) < spec_key(#[trigger] b_rest[j]) by {
            assert(b_rest[i] == b[i] && b_rest[j] == b[j]);
        }
        lemma_one_list_per_set(a_rest, b_rest);
        assert(a =~= a_rest.push(last));
        assert(b =~= b_rest.push(last));
    }
}

/// What the rules of `REQUIRES` add: the patched list holds what the input holds and what a
/// rule requires with a tag of the input.
proof fn lemma_require(input: Seq<u32>, n: int)
    requires
        0 <= n <= REQUIRES@.len(),
    ensures
        forall|x: u32| #[trigger]
            spec_require(input, n).contains(x) <==> input.contains(x) || spec_required_by(
                input,
                x,
                n,
            ),
    decreases n,
{
    let now = spec_require(input, n);
    if n > 0 {
        lemma_require(input, n - 1);
        let before = spec_require(input, n - 1);
        let trigger = REQUIRES@[n - 1].0;
        let required = REQUIRES@[n - 1].1;
        assert forall|x: u32| #[trigger] now.contains(x) <==> input.contains(x)
            || spec_required_by(input, x, n) by {
            if before.contains(x) {
                let at = choose|at: int| 0 <= at < before.len() && before[at] == x;
                assert(now[at] == x);
                if !input.contains(x) {
                    let k = choose|k: int|
                        0 <= k < n - 1 && (#[trigger] REQUIRES@[k]).1 == x && input.contains(
                            REQUIRES@[k].0,
                        );
                    assert(0 <= k < n && REQUIRES@[k].1 == x && input.contains(REQUIRES@[k].0));
                }
            } else {
                if now.contains(x) {
                    let at = choose|at: int| 0 <= at < now.len() && now[at] == x;
                    if at < before.len() {
                        assert(before[at] == x);
                    }
                    assert(x == required && input.contains(trigger));
                    assert(REQUIRES@[n - 1].1 == x && input.contains(REQUIRES@[n - 1].0));
                }
                if spec_required_by(input, x, n) {
                    let k = choose|k: int|
                        0 <= k < n && (#[trigger] REQUIRES@[k]).1 == x && input.contains(
                            REQUIRES@[k].0,
                        );
                    if k < n - 1 {
                        assert(spec_required_by(input, x, n - 1));
                    }
                    assert(k == n - 1);
                    assert(now[now.len() - 1] == x);
                }
            }
        }
    }
}

/// A list without a tag holds what it held before, but for that tag.
proof fn lemma_without(listed: Seq<u32>, tag: u32, n: int)
    requires
        0 <= n <= listed.len(),
    ensures
        forall|x: u32| #[trigger]
            spec_without(listed, tag, n).contains(x) <==> x != tag && listed.take(n).contains(x),
    decreases n,
{
    let now = spec_without(listed, tag, n);
    let upto = listed.take(n);
    if n > 0 {
        let before = spec_without(listed, tag, n - 1);
        let shorter = listed.take(n - 1);
        lemma_without(listed, tag, n - 1);
        assert forall|x: u32| #[trigger] now.contains(x) <==> x != tag && upto.contains(x) by {
            if now.contains(x) {
                let at = choose|at: int| 0 <= at < now.len() && now[at] == x;
                if at < before.len() {
                    assert(before[at] == x);
                    assert(before.contains(x));
                    assert(shorter.contains(x));
                    let was = choose|was: int| 0 <= was < shorter.len() && shorter[was] == x;
                    assert(upto[was] == x);
                } else {
                    assert(upto[n - 1] == x);
                }
            }
            if x != tag && upto.contains(x) {
                let was = choose|was: int| 0 <= was < upto.len() && upto[was] == x;
                if was < n - 1 {
                    assert(shorter[was] == x);
                    assert(shorter.contains(x));
                    assert(before.contains(x));
                    let at = choose|at: int| 0 <= at < before.len() && before[at] == x;
                    assert(now[at] == x);
                } else {
                    assert(now[now.len() - 1] == x);
                }
            }
        }
    }
}

/// What the rules of `SUPPRESSES` take out: what a rule suppresses beside a tag of the
/// input, and nothing else.
proof fn lemma_suppress(input: Seq<u32>, listed: Seq<u32>, n: int)
    requires
        0 <= n <= SUPPRESSES@.len(),
    ensures
        forall|x: u32| #[trigger]
            spec_suppress(input, listed, n).contains(x) <==> listed.contains(x)
                && !spec_suppressed_by(input, x, n),
    decreases n,
{
    let now = spec_suppress(input, listed, n);
    if n > 0 {
        lemma_suppress(input, listed, n - 1);
        let before = spec_suppress(input, listed, n - 1);
        let trigger = SUPPRESSES@[n - 1].0;
        let victim = SUPPRESSES@[n - 1].1;
        lemma_without(before, victim, before.len() as int);
        assert(before.take(before.len() as int) =~= before);
        assert forall|x: u32| #[trigger] now.contains(x) <==> listed.contains(x)
            && !spec_suppressed_by(input, x, n) by {
            if spec_suppressed_by(input, x, n) {
                let k = choose|k: int|
                    0 <= k < n && (#[trigger] SUPPRESSES@[k]).1 == x && input.contains(
                        SUPPRESSES@[k].0,
                    );
                if k < n - 1 {
                    assert(spec_suppressed_by(input, x, n - 1));
                }
            }
            if spec_suppressed_by(input, x, n - 1) {
                let k = choose|k: int|
                    0 <= k < n - 1 && (#[trigger] SUPPRESSES@[k]).1 == x && input.contains(
                        SUPPRESSES@[k].0,
                    );
                assert(0 <= k < n && SUPPRESSES@[k].1 == x && input.contains(SUPPRESSES@[k].0));
            }
            if x == victim && input.contains(trigger) {
                assert(SUPPRESSES@[n - 1].1 == x && input.contains(SUPPRESSES@[n - 1].0));
            }
        }
    }
}

/// Patching, for every list: the patched list is in composition order, holds no tag twice,
/// and holds a tag exactly if the override rules list it.
pub proof fn lemma_overrides(comps: Seq<u32>)
    ensures
        strictly_prioritized(spec_apply_overrides(comps)),
        spec_apply_overrides(comps).no_duplicates(),
        forall|tag: u32| #[trigger]
            spec_apply_overrides(comps).contains(tag) <==> spec_listed(comps, tag),
{
    let required = spec_require(comps, REQUIRES@.len() as int);
    let patched = spec_patch(comps);
    let ordered = spec_apply_overrides(comps);
    lemma_require(comps, REQUIRES@.len() as int);
    lemma_suppress(comps, required, SUPPRESSES@.len() as int);
    lemma_prioritize(patched);
    assert forall|tag: u32| #[trigger] ordered.contains(tag) <==> spec_listed(comps, tag) by {
        assert(ordered.contains(tag) <==> patched.contains(tag));
        assert(patched.contains(tag) <==> required.contains(tag) && !spec_suppressed_beside(
            comps,
            tag,
        ));
        assert(required.contains(tag) <==> comps.contains(tag) || spec_required_with(comps, tag));
    }
}

/// What the override rules list depends on which tags a list names, not on their order, nor
/// on how often the list names them.
pub proof fn lemma_listed_depends_on_tags(a: Seq<u32>, b: Seq<u32>, tag: u32)
    requires
        forall|x: u32| a.contains(x) <==> b.contains(x),
    ensures
        spec_listed(a, tag) == spec_listed(b, tag),
{
    if spec_required_with(a, tag) {
        let k = choose|k: int|
            0 <= k < REQUIRES@.len() && (#[trigger] REQUIRES@[k]).1 == tag && a.contains(
                REQUIRES@[k].0,
            );
        assert(b.contains(REQUIRES@[k].0));
    }
    if spec_required_with(b, tag) {
        let k = choose|k: int|
            0 <= k < REQUIRES@.len() && (#[trigger] REQUIRES@[k]).1 == tag && b.contains(
                REQUIRES@[k].0,
            );
        assert(a.contains(REQUIRES@[k].0));
    }
    if spec_suppressed_beside(a, tag) {
        let k = choose|k: int|
            0 <= k < SUPPRESSES@.len() && (#[trigger] SUPPRESSES@[k]).1 == tag && a.contains(
                SUPPRESSES@[k].0,
            );
        assert(b.contains(SUPPRESSES@[k].0));
    }
    if spec_suppressed_beside(b, tag) {
        let k = choose|k: int|
            0 <= k < SUPPRESSES@.len() && (#[trigger] SUPPRESSES@[k]).1 == tag && b.contains(
                SUPPRESSES@[k].0,
            );
        assert(a.contains(SUPPRESSES@[k].0));
    }
}

/// The override rules, written out: what they list for a list that names the tags `input`.
pub proof fn lemma_listed_written_out(input: Seq<u32>, tag: u32)
    ensures
        spec_listed(input, tag) <==> {
            &&& {
                ||| input.contains(tag)
                ||| tag == 44 && input.contains(2)
                ||| (tag == 110 || tag == 109 || tag == 106) && input.contains(4)
                ||| tag == 98 && input.contains(7)
                ||| tag == 7 && (input.contains(23) || input.contains(48))
            }
            &&& !((tag == 11 || tag == 42) && input.contains(26))
        },
{
    lemma_rule_tables();
    if spec_required_with(input, tag) {
        let k = choose|k: int|
            0 <= k < REQUIRES@.len() && (#[trigger] REQUIRES@[k]).1 == tag && input.contains(
                REQUIRES@[k].0,
            );
        assert(k == 0 || k == 1 || k == 2 || k == 3 || k == 4 || k == 5 || k == 6);
    }
    if spec_suppressed_beside(input, tag) {
        let k = choose|k: int|
            0 <= k < SUPPRESSES@.len() && (#[trigger] SUPPRESSES@[k]).1 == tag && input.contains(
                SUPPRESSES@[k].0,
            );
        assert(k == 0 || k == 1);
    }
    if tag == 44 && input.contains(2) {
        assert(REQUIRES@[0].1 == tag && input.contains(REQUIRES@[0].0));
    }
    if tag == 110 && input.contains(4) {
        assert(REQUIRES@[1].1 == tag && input.contains(REQUIRES@[1].0));
    }
    if tag == 109 && input.contains(4) {
        assert(REQUIRES@[2].1 == tag && input.contains(REQUIRES@[2].0));
    }
    if tag == 106 && input.contains(4) {
        assert(REQUIRES@[3].1 == tag && input.contains(REQUIRES@[3].0));
    }
    if tag == 98 && input.contains(7) {
        assert(REQUIRES@[4].1 == tag && input.contains(REQUIRES@[4].0));
    }
    if tag == 7 && input.contains(23) {
        assert(REQUIRES@[5].1 == tag && input.contains(REQUIRES@[5].0));
    }
    if tag == 7 && input.contains(48) {
        assert(REQUIRES@[6].1 == tag && input.contains(REQUIRES@[6].0));
    }
    if tag == 11 && input.contains(26) {
        assert(SUPPRESSES@[0].1 == tag && input.contains(SUPPRESSES@[0].0));
    }
    if tag == 42 && input.contains(26) {
        assert(SUPPRESSES@[1].1 == tag && input.contains(SUPPRESSES@[1].0));
    }
}

/// The capability list of a template, for every raw list: it is in composition order, holds
/// no tag twice, and holds a tag exactly if the raw list names it or a rule requires it with
/// a tag that the raw list names, and no rule suppresses it beside a tag that the raw list
/// names.
pub proof fn lemma_compose(raw: Seq<u32>)
    ensures
        strictly_prioritized(spec_compose(raw)),
        spec_compose(raw).no_duplicates(),
        forall|tag: u32| #[trigger] spec_compose(raw).contains(tag) <==> spec_listed(raw, tag),
{
    let ordered = spec_prioritize(raw);
    let composed = spec_compose(raw);
    lemma_prioritize(raw);
    lemma_overrides(ordered);
    assert forall|tag: u32| #[trigger] composed.contains(tag) <==> spec_listed(raw, tag) by {
        assert(composed.contains(tag) <==> spec_listed(ordered, tag));
        assert forall|x: u32| ordered.contains(x) <==> raw.contains(x) by {}
        lemma_listed_depends_on_tags(ordered, raw, tag);
    }
}

/// The capability list depends on which tags the template data names, not on the order in
/// which it names them, nor on how often.
pub proof fn lemma_compose_ignores_input_order(raw1: Seq<u32>, raw2: Seq<u32>)
    requires
        forall|tag: u32| raw1.contains(tag) <==> raw2.contains(tag),
    ensures
        spec_compose(raw1) == spec_compose(raw2),
{
    lemma_compose(raw1);
    lemma_compose(raw2);
    let a = spec_compose(raw1);
    let b = spec_compose(raw2);
    assert forall|tag: u32| a.contains(tag) <==> b.contains(tag) by {
        assert(a.contains(tag) <==> spec_listed(raw1, tag));
        assert(b.contains(tag) <==> spec_listed(raw2, tag));
        lemma_listed_depends_on_tags(raw1, raw2, tag);
    }
    lemma_one_list_per_set(a, b);
}

/// Patching reorders nothing: two tags of a list in composition order that no rule
/// suppresses stand in the patched list as they stood in the list, the one before the other.
pub proof fn lemma_patching_keeps_the_order_of_the_input(comps: Seq<u32>, i: int, j: int)
    requires
        strictly_prioritized(comps),
        0 <= i < j < comps.len(),
        !spec_suppressed_beside(comps, comps[i]),
        !spec_suppressed_beside(comps, comps[j]),
    ensures
        spec_apply_overrides(comps).contains(comps[i]),
        spec_apply_overrides(comps).contains(comps[j]),
        spec_apply_overrides(comps).index_of(comps[i]) < spec_apply_overrides(comps).index_of(
            comps[j],
        ),
{
    let patched = spec_apply_overrides(comps);
    lemma_overrides(comps);
    assert(comps.contains(comps[i]) && comps.contains(comps[j]));
    assert(patched.contains(comps[i]) && patched.contains(comps[j]));
    let at_i = patched.index_of(comps[i]);
    let at_j = patched.index_of(comps[j]);
    assert(spec_key(comps[i]) < spec_key(comps[j]));
    if at_i >= at_j {
        if at_i > at_j {
            assert(spec_key(patched[at_j]) < spec_key(patched[at_i]));
        }
    }
}

/// Whether building can deal with the capability `tag`: it needs no component, or a kind of
/// component is built for it.
pub open spec fn spec_is_buildable(tag: u32) -> bool {
    spec_needs_no_component(tag) || tag == 1 || tag == 3 || tag == 4 || tag == 5 || tag == 7
        || tag == 9 || tag == 17 || tag == 44 || tag == 60 || tag == 98 || tag == 106 || tag
        == 107 || tag == 109 || tag == 110
}

/// The tags among the first `n` of `comps` that get a component, in the order of `comps`.
pub open spec fn spec_component_tags(comps: Seq<u32>, n: int) -> Seq<u32>
    decreases n,
{
    if n <= 0 {
        Seq::empty()
    } else if spec_needs_no_component(comps[n - 1]) {
        spec_component_tags(comps, n - 1)
    } else {
        spec_component_tags(comps, n - 1).push(comps[n - 1])
    }
}

/// The capability tags of a list of components, in the order of the list.
pub open spec fn spec_tags_of(components: Seq<Component>) -> Seq<u32> {
    Seq::new(components.len(), |i: int| components[i].spec_tag())
}

/// Building succeeds exactly if it can deal with every tag. It then builds one component for
/// each tag that needs one, of the kind that the tag names, in the order of the list. It
/// fails with the first tag that it cannot deal with.
pub proof fn lemma_create(comps: Seq<u32>, config: &SpawnConfig, n: int)
    requires
        0 <= n <= comps.len(),
    ensures
        spec_create(comps, config, n) is Ok <==> forall|i: int|
            0 <= i < n ==> spec_is_buildable(#[trigger] comps[i]),
        spec_create(comps, config, n) is Ok ==> spec_tags_of(spec_create(comps, config, n)->Ok_0)
            == spec_component_tags(comps, n),
        spec_create(comps, config, n) is Err ==> exists|k: int|
            0 <= k < n && !spec_is_buildable(#[trigger] comps[k]) && spec_create(comps, config, n)
                == Err::<Seq<Component>, Error>(Error::UnknownComponent(comps[k])) && forall|i: int|
                0 <= i < k ==> spec_is_buildable(#[trigger] comps[i]),
    decreases n,
{
    if n > 0 {
        lemma_create(comps, config, n - 1);
        let tag = comps[n - 1];
        match spec_create(comps, config, n - 1) {
            Ok(built) => {
                if spec_needs_no_component(tag) {
                } else {
                    match Component::spec_new_c(tag, config) {
                        Some(c) => {
                            assert(spec_is_buildable(tag));
                            assert(c.spec_tag() == tag);
                            assert(spec_tags_of(built.push(c)) =~= spec_tags_of(built).push(tag));
                        },
                        None => {
                            assert(!spec_is_buildable(tag));
                        },
                    }
                }
            },
            Err(e) => {
                let k = choose|k: int|
                    0 <= k < n - 1 && !spec_is_buildable(#[trigger] comps[k]) && spec_create(
                        comps,
                        config,
                        n - 1,
                    ) == Err::<Seq<Component>, Error>(Error::UnknownComponent(comps[k]))
                        && forall|i: int| 0 <= i < k ==> spec_is_buildable(#[trigger] comps[i]);
                assert(0 <= k < n && !spec_is_buildable(comps[k]));
            },
        }
    }
}

/// The tags that get a component follow each other as in the capability list: where the
/// list is in composition order and holds no tag twice, so are they.
pub proof fn lemma_component_tags_keep_order(comps: Seq<u32>, n: int)
    requires
        strictly_prioritized(comps),
        0 <= n <= comps.len(),
    ensures
        strictly_prioritized(spec_component_tags(comps, n)),
        forall|j: int|
            0 <= j < spec_component_tags(comps, n).len() ==> exists|i: int|
                0 <= i < n && comps[i] == #[trigger] spec_component_tags(comps, n)[j],
    decreases n,
{
    let now = spec_component_tags(comps, n);
    if n > 0 {
        lemma_component_tags_keep_order(comps, n - 1);
        let before = spec_component_tags(comps, n - 1);
        assert forall|j: int| 0 <= j < now.len() implies exists|i: int|
            0 <= i < n && comps[i] == #[trigger] now[j] by {
            if j < before.len() {
                assert(now[j] == before[j]);
                let i = choose|i: int| 0 <= i < n - 1 && comps[i] == before[j];
                assert(0 <= i < n && comps[i] == now[j]);
            } else {
                assert(comps[n - 1] == now[j]);
            }
        }
        assert forall|i: int, j: int| 0 <= i < j < now.len() implies spec_key(#[trigger] now[i])
            < spec_key(#[trigger] now[j]) by {
            assert(now[i] == before[i]);
            if j < before.len() {
                assert(now[j] == before[j]);
            } else {
                let at = choose|at: int| 0 <= at < n - 1 && comps[at] == before[i];
                assert(spec_key(comps[at]) < spec_key(comps[n - 1]));
            }
        }
    }
}

/// The tags that get a component are the tags of the capability list that need one.
pub proof fn lemma_component_tags(comps: Seq<u32>, n: int)
    requires
        0 <= n <= comps.len(),
    ensures
        forall|tag: u32| #[trigger]
            spec_component_tags(comps, n).contains(tag) <==> comps.take(n).contains(tag)
                && !spec_needs_no_component(tag),
    decreases n,
{
    let now = spec_component_tags(comps, n);
    let upto = comps.take(n);
    if n > 0 {
        let before = spec_component_tags(comps, n - 1);
        let shorter = comps.take(n - 1);
        lemma_component_tags(comps, n - 1);
        assert forall|tag: u32| #[trigger]
            now.contains(tag) <==> upto.contains(tag) && !spec_needs_no_component(tag) by {
            if now.contains(tag) {
                let at = choose|at: int| 0 <= at < now.len() && now[at] == tag;
                if at < before.len() {
                    assert(before[at] == tag);
                    assert(before.contains(tag));
                    assert(shorter.contains(tag));
                    let was = choose|was: int| 0 <= was < shorter.len() && shorter[was] == tag;
                    assert(upto[was] == tag);
                } else {
                    assert(upto[n - 1] == tag);
                }
            }
            if upto.contains(tag) && !spec_needs_no_component(tag) {
                let was = choose|was: int| 0 <= was < upto.len() && upto[was] == tag;
                if was < n - 1 {
                    assert(shorter[was] == tag);
                    assert(shorter.contains(tag));
                    assert(before.contains(tag));
                    let at = choose|at: int| 0 <= at < before.len() && before[at] == tag;
                    assert(now[at] == tag);
                } else {
                    assert(now[now.len() - 1] == tag);
                }
            }
        }
    }
}

} // verus!
