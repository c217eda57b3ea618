use world_server::error::Error;
use world_server::game_object::component::Component;
use world_server::game_object::composition::{
    compose, contains, insert, needs_no_component, prioritize, priority_key, ranked, without,
    COMP_ORDER, NO_COMPONENT, REQUIRES, SUPPRESSES,
};
use world_server::game_object::GameObject;
use world_server::math::SpawnConfig;

fn tags(components: &Vec<Component>) -> Vec<u32> {
    components.iter().map(|c| c.tag()).collect()
}

/// The capability list by the rules, as a set: the tags of `raw`, with what a rule requires
/// with one of them, without what a rule suppresses beside one of them; then put in
/// composition order.
fn by_the_rules(raw: &[u32]) -> Vec<u32> {
    let mut listed: Vec<u32> = raw.to_vec();
    for (trigger, required) in REQUIRES {
        if raw.contains(&trigger) {
            listed.push(required);
        }
    }
    for (trigger, suppressed) in SUPPRESSES {
        if raw.contains(&trigger) {
            listed.retain(|t| *t != suppressed);
        }
    }
    listed.sort_by_key(|t| match COMP_ORDER.iter().position(|c| c == t) {
        Some(rank) => rank as u64,
        None => 35 + *t as u64,
    });
    listed.dedup();
    listed
}

fn in_composition_order(comps: &Vec<u32>) -> bool {
    comps.windows(2).all(|w| priority_key(w[0]) < priority_key(w[1]))
}

#[test]
fn priority_table_has_thirty_five_distinct_tags() {
    assert_eq!(COMP_ORDER.len(), 35);
    for i in 0..COMP_ORDER.len() {
        for j in 0..i {
            assert_ne!(COMP_ORDER[i], COMP_ORDER[j]);
        }
    }
    assert_eq!(COMP_ORDER[0], 108);
    assert_eq!(COMP_ORDER[12], 4);
    assert_eq!(COMP_ORDER[34], 107);
}

#[test]
fn override_tables_hold_the_known_rules() {
    assert_eq!(REQUIRES, [(2, 44), (4, 110), (4, 109), (4, 106), (7, 98), (23, 7), (48, 7)]);
    assert_eq!(SUPPRESSES, [(26, 11), (26, 42)]);
    assert_eq!(NO_COMPONENT.len(), 23);
}

#[test]
fn membership_helpers_agree_with_the_tables() {
    for tag in 0..200u32 {
        assert_eq!(ranked(tag), COMP_ORDER.contains(&tag), "tag {}", tag);
        assert_eq!(needs_no_component(tag), NO_COMPONENT.contains(&tag), "tag {}", tag);
    }
    let v = vec![5, 9, 5, 7];
    assert!(contains(&v, 9));
    assert!(!contains(&v, 4));
    assert_eq!(without(&v, 5), vec![9, 7]);
    assert_eq!(without(&v, 4), v);
    assert_eq!(without(&vec![], 4), Vec::<u32>::new());
}

#[test]
fn the_place_of_a_tag_is_its_rank_or_behind_every_rank() {
    for (rank, tag) in COMP_ORDER.iter().enumerate() {
        assert_eq!(priority_key(*tag), rank as u64);
    }
    assert_eq!(priority_key(0), 35);
    assert_eq!(priority_key(12), 47);
    assert_eq!(priority_key(200), 235);
    assert_eq!(priority_key(u32::MAX), 35 + u32::MAX as u64);
}

#[test]
fn insert_puts_a_tag_at_its_place_once() {
    let mut list = vec![];
    for tag in [4, 200, 1, 12, 4, 107, 200, 108, 1] {
        insert(&mut list, tag);
        assert!(in_composition_order(&list));
    }
    assert_eq!(list, vec![108, 1, 4, 107, 12, 200]);
}

#[test]
fn prioritize_sorts_by_the_priority_table() {
    assert_eq!(prioritize(&vec![4, 1, 7]), vec![1, 7, 4]);
    assert_eq!(prioritize(&vec![107, 108]), vec![108, 107]);
    assert_eq!(prioritize(&vec![]), Vec::<u32>::new());
}

#[test]
fn prioritize_lists_each_tag_once() {
    assert_eq!(prioritize(&vec![7, 1, 7, 1, 7]), vec![1, 7]);
    assert_eq!(prioritize(&vec![200, 1, 201, 200]), vec![1, 200, 201]);
    assert_eq!(prioritize(&vec![200, 200, 1, 200]), vec![1, 200]);
}

#[test]
fn prioritize_puts_unranked_tags_behind_the_others_the_smaller_first() {
    assert_eq!(prioritize(&vec![201, 1, 200, 12]), vec![1, 12, 200, 201]);
    assert_eq!(prioritize(&vec![12, 200, 1, 201]), vec![1, 12, 200, 201]);
    assert_eq!(prioritize(&vec![300, 9, 9, 300, 5, 24]), vec![5, 9, 24, 300]);
}

#[test]
fn prioritize_agrees_with_a_sort_by_place_and_a_dedup() {
    let inputs: Vec<Vec<u32>> = vec![
        vec![4, 1, 7],
        vec![200, 1, 201, 200],
        vec![12, 2, 12, 12, 24, 12],
        vec![9, 9, 300, 5, 300, 300, 1, 5],
        vec![107, 71, 44, 2, 49, 6, 42, 75, 23, 39, 19, 102, 100, 16, 25, 48, 11, 60],
    ];
    for raw in inputs {
        let mut expected = raw.clone();
        expected.sort_by_key(|t| priority_key(*t));
        expected.dedup();
        let got = prioritize(&raw);
        assert_eq!(got, expected, "raw {:?}", raw);
        assert!(in_composition_order(&got));
    }
}

#[test]
fn compose_does_not_depend_on_input_order() {
    let a = compose(&vec![1, 4, 7, 17, 9]);
    let b = compose(&vec![9, 17, 7, 4, 1]);
    let c = compose(&vec![7, 9, 1, 1, 17, 4, 7]);
    assert_eq!(a, b);
    assert_eq!(a, c);
    assert_eq!(a, vec![1, 98, 7, 110, 109, 106, 4, 17, 9]);
    // Nor where the table does not hold a tag.
    assert_eq!(compose(&vec![200, 12, 1]), compose(&vec![12, 1, 200, 12]));
    assert_eq!(compose(&vec![200, 12, 1]), vec![1, 12, 200]);
}

#[test]
fn implied_capability_is_never_missing_nor_reordered() {
    // The template implies {1, 7}; the rule "7 implies 98" adds 98.
    assert_eq!(compose(&vec![1, 7]), vec![1, 98, 7]);
    assert_eq!(compose(&vec![7, 1]), vec![1, 98, 7]);
}

#[test]
fn a_required_capability_that_is_named_already_is_not_listed_twice() {
    assert_eq!(compose(&vec![7, 98]), vec![98, 7]);
    assert_eq!(compose(&vec![98, 7]), vec![98, 7]);
    assert_eq!(compose(&vec![4, 106]), vec![110, 109, 106, 4]);
    assert_eq!(compose(&vec![4, 110, 109, 106]), vec![110, 109, 106, 4]);
    assert_eq!(compose(&vec![2, 44]), vec![2, 44]);
    let built = GameObject::new(1, 2, 3, &SpawnConfig::empty(), &vec![7, 98]).unwrap();
    assert_eq!(built.component_count(), 2);
    assert_eq!(built.component(0).unwrap().tag(), 98);
    assert_eq!(built.component(1).unwrap().tag(), 7);
}

#[test]
fn the_override_step_puts_what_is_required_at_its_place() {
    assert_eq!(GameObject::apply_component_overrides(&vec![1, 7]), vec![1, 98, 7]);
    assert_eq!(GameObject::apply_component_overrides(&vec![4]), vec![110, 109, 106, 4]);
    assert_eq!(GameObject::apply_component_overrides(&vec![1, 4, 17]), vec![1, 110, 109, 106, 4, 17]);
    assert_eq!(GameObject::apply_component_overrides(&vec![]), Vec::<u32>::new());
    assert_eq!(GameObject::apply_component_overrides(&vec![1, 3, 5]), vec![1, 3, 5]);
}

#[test]
fn the_override_step_orders_whatever_it_is_given() {
    assert_eq!(GameObject::apply_component_overrides(&vec![7, 1, 7]), vec![1, 98, 7]);
    assert_eq!(GameObject::apply_component_overrides(&vec![200, 4, 12]), vec![110, 109, 106, 4, 12, 200]);
}

#[test]
fn character_brings_its_three_companions() {
    assert_eq!(compose(&vec![4]), vec![110, 109, 106, 4]);
    assert_eq!(compose(&vec![109, 4]), vec![110, 109, 106, 4]);
}

#[test]
fn render_brings_effects() {
    assert_eq!(GameObject::apply_component_overrides(&vec![2]), vec![2, 44]);
    assert_eq!(compose(&vec![2]), vec![2, 44]);
    assert_eq!(compose(&vec![44, 2, 44]), vec![2, 44]);
}

#[test]
fn destructible_is_required_by_two_capabilities() {
    assert_eq!(GameObject::apply_component_overrides(&vec![23]), vec![7, 23]);
    assert_eq!(GameObject::apply_component_overrides(&vec![48]), vec![7, 48]);
    assert_eq!(compose(&vec![48, 23]), vec![7, 48, 23]);
    // The required tag stands at its own place, not at the place of what requires it.
    assert_eq!(compose(&vec![17, 48]), vec![7, 17, 48]);
    assert_eq!(compose(&vec![4, 48]), vec![7, 110, 109, 106, 4, 48]);
}

#[test]
fn a_tag_that_a_rule_has_added_triggers_no_rule() {
    // 23 and 48 require 7; only a 7 that the list names requires 98.
    assert!(!compose(&vec![23]).contains(&98));
    assert!(!compose(&vec![48]).contains(&98));
    assert_eq!(compose(&vec![7, 48]), vec![98, 7, 48]);
    assert_eq!(compose(&vec![23, 7]), vec![98, 7, 23]);
}

#[test]
fn capability_26_removes_11_and_42() {
    assert_eq!(GameObject::apply_component_overrides(&vec![26, 11, 42]), vec![26]);
    assert_eq!(compose(&vec![1, 26, 11, 5, 42, 6]), vec![1, 26, 5, 6]);
    assert_eq!(compose(&vec![11, 42]), vec![11, 42]);
}

#[test]
fn capability_26_without_11_or_42_removes_nothing() {
    assert_eq!(compose(&vec![26]), vec![26]);
    assert_eq!(compose(&vec![26, 42]), vec![26]);
    assert_eq!(compose(&vec![26, 11]), vec![26]);
}

#[test]
fn suppression_removes_every_listing() {
    assert_eq!(GameObject::apply_component_overrides(&vec![11, 26, 11, 42, 11]), vec![26]);
    assert_eq!(compose(&vec![11, 26, 11, 42, 11]), vec![26]);
}

#[test]
fn compose_agrees_with_the_rules_as_a_set() {
    let inputs: Vec<Vec<u32>> = vec![
        vec![],
        vec![2],
        vec![2, 44],
        vec![4, 106],
        vec![7, 98],
        vec![48],
        vec![23, 48, 7],
        vec![26, 11, 42],
        vec![11, 42],
        vec![9, 17, 7, 4, 1, 2],
        vec![200, 1, 201, 200, 12],
        vec![26, 26, 11, 4, 4, 23, 2, 300, 12, 48, 42, 98, 110],
        COMP_ORDER.to_vec(),
        COMP_ORDER.iter().rev().copied().collect(),
    ];
    for raw in inputs {
        let got = compose(&raw);
        assert_eq!(got, by_the_rules(&raw), "raw {:?}", raw);
        assert_eq!(GameObject::apply_component_overrides(&raw), got, "raw {:?}", raw);
        assert_eq!(GameObject::apply_component_overrides(&prioritize(&raw)), got, "raw {:?}", raw);
        assert!(in_composition_order(&got), "raw {:?}", raw);
        let mut shuffled = raw.clone();
        shuffled.reverse();
        shuffled.extend(raw.iter());
        assert_eq!(compose(&shuffled), got, "raw {:?}", raw);
    }
}

#[test]
fn the_reported_unknown_tag_does_not_depend_on_input_order() {
    let config = SpawnConfig::empty();
    for raw in [vec![1, 200, 201], vec![201, 200, 1], vec![200, 201, 1, 201]] {
        let r = GameObject::new(1, 2, 3, &config, &raw);
        assert_eq!(r.err(), Some(Error::UnknownComponent(200)), "raw {:?}", raw);
    }
    // A ranked tag for which no component is built comes before every unranked one.
    for raw in [vec![200, 108], vec![108, 200]] {
        let r = GameObject::new(1, 2, 3, &config, &raw);
        assert_eq!(r.err(), Some(Error::UnknownComponent(108)), "raw {:?}", raw);
    }
}

#[test]
fn every_known_tag_builds_its_own_kind() {
    let config = SpawnConfig::empty();
    for tag in [1u32, 3, 4, 5, 7, 9, 17, 44, 60, 98, 106, 107, 109, 110] {
        let built = Component::new_c(tag, &config).expect("known tag");
        assert_eq!(built.tag(), tag);
    }
    for tag in 0..300u32 {
        let known = [1u32, 3, 4, 5, 7, 9, 17, 44, 60, 98, 106, 107, 109, 110].contains(&tag);
        assert_eq!(Component::new_c(tag, &config).is_some(), known, "tag {}", tag);
    }
}

#[test]
fn create_components_builds_in_list_order() {
    let config = SpawnConfig::empty();
    let built = GameObject::create_components(&vec![1, 98, 7, 110, 109, 106, 4, 17, 9], &config)
        .unwrap();
    assert_eq!(tags(&built), vec![1, 98, 7, 110, 109, 106, 4, 17, 9]);
}

#[test]
fn create_components_skips_tags_that_need_no_component() {
    let config = SpawnConfig::empty();
    let built = GameObject::create_components(&vec![44, 2, 12, 5, 114], &config).unwrap();
    assert_eq!(tags(&built), vec![44, 5]);
}

#[test]
fn create_components_fails_on_the_first_unknown_tag() {
    let config = SpawnConfig::empty();
    let r = GameObject::create_components(&vec![1, 200, 201], &config);
    assert_eq!(r.err(), Some(Error::UnknownComponent(200)));
    // A ranked tag for which no component is built is unknown too.
    let r = GameObject::create_components(&vec![108], &config);
    assert_eq!(r.err(), Some(Error::UnknownComponent(108)));
}

#[test]
fn created_components_do_not_depend_on_input_order() {
    let config = SpawnConfig::empty();
    let a = GameObject::create_components(&compose(&vec![2, 12, 1, 7]), &config).unwrap();
    let b = GameObject::create_components(&compose(&vec![7, 1, 12, 2, 7, 12]), &config).unwrap();
    assert_eq!(a, b);
    assert_eq!(tags(&a), vec![1, 98, 7, 44]);
}
