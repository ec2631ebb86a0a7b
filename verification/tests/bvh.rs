use scepter::bvh::partition_by_bin;

#[test]
fn partitions_a_range_around_the_split_bin() {
    // bins of triangles 0..6
    let bins = vec![5, 1, 7, 2, 9, 0];
    let mut idx = vec![100, 0, 1, 2, 3, 4, 5, 200];
    let mid = partition_by_bin(&mut idx, &bins, 1, 7, 2);
    assert_eq!(idx[0], 100);
    assert_eq!(idx[7], 200);
    let mut range: Vec<u32> = idx[1..7].to_vec();
    // low side first
    assert!(range[..3].iter().all(|&t| bins[t as usize] <= 2));
    assert!(range[3..].iter().all(|&t| bins[t as usize] > 2));
    assert_eq!(mid, 4);
    range.sort();
    assert_eq!(range, vec![0, 1, 2, 3, 4, 5]);
    // the two-pointer walk: 0 and 5 are swapped, then 2 and 3
    assert_eq!(idx, vec![100, 5, 1, 3, 2, 4, 0, 200]);
}

#[test]
fn one_sided_partitions_keep_both_children_non_empty() {
    let bins = vec![0, 0, 0];
    let mut idx = vec![0, 1, 2];
    assert_eq!(partition_by_bin(&mut idx, &bins, 0, 3, 4), 2);
    assert_eq!(idx, vec![0, 1, 2]);
    let bins = vec![9, 9, 9];
    let mut idx = vec![0, 1, 2];
    assert_eq!(partition_by_bin(&mut idx, &bins, 0, 3, 4), 1);
    assert_eq!(idx, vec![0, 1, 2]);
}
