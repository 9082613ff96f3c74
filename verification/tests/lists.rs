use anat::{populate_nat_tree, recursive_nat_tree_increment, simple_nat_to_num, NatNum};

#[test]
fn lib_create_zero() {
    let num = NatNum::Zero;
    assert_eq!(num.to_number(), 0);
}

#[test]
fn lib_create_one() {
    let num = NatNum::Mult(vec![NatNum::Zero]);
    assert_eq!(num.to_number(), 1)
}

#[test]
fn lib_create_two() {
    let num = NatNum::Mult(vec![NatNum::Zero, NatNum::Mult(vec![NatNum::Zero])]);
    assert_eq!(num.to_number(), 2)
}

#[test]
fn lib_create_three() {
    let num = NatNum::Mult(vec![
        NatNum::Zero,
        NatNum::Mult(vec![NatNum::Zero]),
        NatNum::Mult(vec![NatNum::Zero, NatNum::Mult(vec![NatNum::Zero])]),
    ]);

    assert_eq!(num.to_number(), 3)
}

#[test]
fn lib_from_zero() {
    let num = NatNum::from(0);
    assert_eq!(num, NatNum::Zero);
    assert_eq!(num.to_number(), 0);
}

#[test]
fn lib_from_one() {
    let num = NatNum::from(1);
    assert_eq!(num, NatNum::Mult(vec![NatNum::Zero]));
    assert_eq!(num.to_number(), 1);
}

#[test]
fn lib_from_two() {
    let num = NatNum::from(2);
    assert_eq!(
        num,
        NatNum::Mult(vec![NatNum::Zero, NatNum::Mult(vec![NatNum::Zero])])
    );
    assert_eq!(num.to_number(), 2);
}

#[test]
fn lib_from_three() {
    let num = NatNum::from(3);
    assert_eq!(
        num,
        NatNum::Mult(vec![
            NatNum::Zero,
            NatNum::Mult(vec![NatNum::Zero]),
            NatNum::Mult(vec![NatNum::Zero, NatNum::Mult(vec![NatNum::Zero])]),
        ])
    );
}

#[test]
fn lib_from_four() {
    let num = NatNum::from(4);
    assert_eq!(
        num,
        NatNum::Mult(vec![
            NatNum::Zero,
            NatNum::Mult(vec![NatNum::Zero]),
            NatNum::Mult(vec![NatNum::Zero, NatNum::Mult(vec![NatNum::Zero])]),
            NatNum::Mult(vec![
                NatNum::Zero,
                NatNum::Mult(vec![NatNum::Zero]),
                NatNum::Mult(vec![NatNum::Zero, NatNum::Mult(vec![NatNum::Zero])]),
            ]),
        ])
    );
}

#[test]
fn lib_add_zeros() {
    let num1 = NatNum::from(0);
    let num2 = NatNum::from(0);
    let num3 = NatNum::from(2);

    assert_eq!(num1.add_rec(&num2), NatNum::from(0));
    assert_eq!(num1.add_rec(&num3), NatNum::from(2));
    assert_eq!(num3.add_rec(&num1), NatNum::from(2));
}

#[test]
fn lib_add_non_zero() {
    let num1 = NatNum::from(1);
    let num2 = NatNum::from(2);
    let num3 = NatNum::from(3);

    assert_eq!(num1.add_rec(&num2), NatNum::from(3));
    assert_eq!(num2.add_rec(&num2), NatNum::from(4));
    assert_eq!(num3.add_rec(&num2), NatNum::from(5));
}

fn members(num: u32) -> Vec<NatNum> {
    match NatNum::from(num) {
        NatNum::Zero => Vec::new(),
        NatNum::Mult(members) => members,
    }
}

#[test]
fn simple_count_is_the_length() {
    assert_eq!(simple_nat_to_num(&Vec::new()), 0);
    assert_eq!(simple_nat_to_num(&vec![NatNum::Zero]), 1);
    assert_eq!(simple_nat_to_num(&vec![NatNum::Zero, NatNum::Zero, NatNum::Zero]), 3);
    assert_eq!(simple_nat_to_num(&members(5)), 5);
}

#[test]
fn populate_nothing_leaves_the_list() {
    let mut tree = vec![NatNum::Mult(Vec::new())];
    populate_nat_tree(&mut tree, 0);
    assert_eq!(tree, vec![NatNum::Mult(Vec::new())]);
}

#[test]
fn populate_an_empty_list() {
    let mut tree = Vec::new();
    populate_nat_tree(&mut tree, 3);
    assert_eq!(
        tree,
        vec![
            NatNum::Zero,
            NatNum::Mult(vec![NatNum::Zero]),
            NatNum::Mult(vec![NatNum::Zero, NatNum::Mult(vec![NatNum::Zero])]),
        ]
    );
}

#[test]
fn populate_goes_in_front_of_what_is_there() {
    let marker = NatNum::Mult(vec![NatNum::Mult(Vec::new())]);
    let mut tree = vec![marker.clone(), NatNum::Zero];
    populate_nat_tree(&mut tree, 2);
    assert_eq!(
        tree,
        vec![NatNum::Zero, NatNum::Mult(vec![NatNum::Zero]), marker, NatNum::Zero]
    );
}

#[test]
fn increment_by_nothing_leaves_the_list() {
    let mut tree = members(2);
    recursive_nat_tree_increment(&mut tree, 0);
    assert_eq!(tree, members(2));
}

#[test]
fn increment_appends_successors() {
    let mut tree = members(2);
    recursive_nat_tree_increment(&mut tree, 1);
    assert_eq!(tree, members(3));
    recursive_nat_tree_increment(&mut tree, 2);
    assert_eq!(tree, members(5));
}

#[test]
fn increment_copies_the_list_as_it_grows() {
    let mut tree = vec![NatNum::Mult(Vec::new())];
    recursive_nat_tree_increment(&mut tree, 2);
    let first = NatNum::Mult(Vec::new());
    let second = NatNum::Mult(vec![first.clone()]);
    let third = NatNum::Mult(vec![first.clone(), second.clone()]);
    assert_eq!(tree, vec![first, second, third]);
}

#[test]
fn increment_of_an_empty_list_adds_an_empty_collection() {
    let mut tree = Vec::new();
    recursive_nat_tree_increment(&mut tree, 1);
    assert_eq!(tree, vec![NatNum::Mult(Vec::new())]);
    assert_ne!(tree, members(1));
}
