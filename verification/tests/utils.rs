use rsrl::utils::{cartesian_product, partial_cartesian, sub2ind};

#[test]
fn test_sub2ind() {
    assert_eq!(sub2ind(&vec![5, 7, 12], &vec![3, 0, 0]), 3);
    assert_eq!(sub2ind(&vec![5, 7, 12], &vec![2, 0, 5]), 177);
    assert_eq!(sub2ind(&vec![5, 7, 12], &vec![2, 5, 5]), 202);
    assert_eq!(sub2ind(&vec![5, 7, 12], &vec![0, 0, 11]), 385);
    assert_eq!(sub2ind(&vec![5, 7, 12], &vec![5, 0, 11]), 390);
}

#[test]
fn test_cartesian_product() {
    let to_combine = vec![vec![0.0, 1.0, 2.0], vec![7.0, 8.0, 9.0]];

    let combs = cartesian_product(&to_combine);

    assert_eq!(combs[0], vec![0.0, 7.0]);
    assert_eq!(combs[1], vec![0.0, 8.0]);
    assert_eq!(combs[2], vec![0.0, 9.0]);

    assert_eq!(combs[3], vec![1.0, 7.0]);
    assert_eq!(combs[4], vec![1.0, 8.0]);
    assert_eq!(combs[5], vec![1.0, 9.0]);

    assert_eq!(combs[6], vec![2.0, 7.0]);
    assert_eq!(combs[7], vec![2.0, 8.0]);
    assert_eq!(combs[8], vec![2.0, 9.0]);
}

#[test]
fn sub2ind_single_subscript_is_itself() {
    assert_eq!(sub2ind(&vec![4], &vec![3]), 3);
    assert_eq!(sub2ind(&vec![], &vec![9]), 9);
}

#[test]
fn sub2ind_ignores_surplus_leading_entries() {
    assert_eq!(sub2ind(&vec![100, 5, 7, 12], &vec![2, 5, 5]), 202);
    assert_eq!(sub2ind(&vec![7, 12], &vec![9, 2, 5, 5]), 40);
}

#[test]
fn cartesian_product_of_nothing_is_empty() {
    let none: Vec<Vec<u8>> = vec![];
    assert_eq!(cartesian_product(&none), Vec::<Vec<u8>>::new());
    assert_eq!(cartesian_product(&vec![vec![1u8, 2], vec![]]), Vec::<Vec<u8>>::new());
}

#[test]
fn cartesian_product_of_one_list_is_its_singletons() {
    assert_eq!(cartesian_product(&vec![vec![3u8, 4]]), vec![vec![3u8], vec![4u8]]);
}

#[test]
fn cartesian_product_of_three_lists() {
    let lists = vec![vec![1, 2], vec![4, 5], vec![6, 7]];
    assert_eq!(
        cartesian_product(&lists),
        vec![
            vec![1, 4, 6],
            vec![1, 4, 7],
            vec![1, 5, 6],
            vec![1, 5, 7],
            vec![2, 4, 6],
            vec![2, 4, 7],
            vec![2, 5, 6],
            vec![2, 5, 7],
        ]
    );
}

#[test]
fn partial_cartesian_appends_each_item_to_each_row() {
    let partial = vec![vec![1, 4], vec![1, 5], vec![2, 4], vec![2, 5]];
    assert_eq!(
        partial_cartesian(partial, &[6, 7]),
        vec![
            vec![1, 4, 6],
            vec![1, 4, 7],
            vec![1, 5, 6],
            vec![1, 5, 7],
            vec![2, 4, 6],
            vec![2, 4, 7],
            vec![2, 5, 6],
            vec![2, 5, 7],
        ]
    );
}
