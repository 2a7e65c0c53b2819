use safer_ring::buffer::numa::{
    affinity_cpus, get_cpu_numa_node, numa_available, numa_node_count, parse_cpu_list, stat_cpu,
};
use safer_ring::error::IoErrorKind;

#[test]
fn cpu_lists_expand_ranges() {
    assert_eq!(parse_cpu_list("0-3,8,10-11").unwrap(), vec![0, 1, 2, 3, 8, 10, 11]);
    assert_eq!(parse_cpu_list("5").unwrap(), vec![5]);
    assert_eq!(parse_cpu_list("3-1").unwrap(), Vec::<usize>::new());
    assert_eq!(parse_cpu_list("1-2-3,4").unwrap(), vec![4]);
}

#[test]
fn cpu_list_errors() {
    let e = parse_cpu_list("0-x").unwrap_err();
    assert_eq!(e.kind, IoErrorKind::InvalidData);
    assert_eq!(e.message, "Invalid CPU range");
    let e = parse_cpu_list("1,y").unwrap_err();
    assert_eq!(e.message, "Invalid CPU number");
    let e = parse_cpu_list("").unwrap_err();
    assert_eq!(e.message, "Invalid CPU number");
}

#[test]
fn node_directory_names() {
    let names = vec![
        "node0".to_string(),
        "node1".to_string(),
        "node".to_string(),
        "node1a".to_string(),
        "possible".to_string(),
        "has_cpu".to_string(),
    ];
    assert_eq!(numa_node_count(Some(&names)), 3);
    assert_eq!(numa_node_count(None), 1);
}

#[test]
fn stat_field_gives_cpu() {
    let mut fields: Vec<String> = (0..38).map(|i| i.to_string()).collect();
    fields.push("7".to_string());
    fields.push("0".to_string());
    let stat = fields.join(" ");
    assert_eq!(stat_cpu(&stat), Some(7));
    assert_eq!(stat_cpu("1 2 3"), None);
}

#[test]
fn cpu_node_from_file_or_estimate() {
    assert_eq!(get_cpu_numa_node(17, None).unwrap(), 2);
    assert_eq!(get_cpu_numa_node(17, Some(" 1\n")).unwrap(), 1);
    let e = get_cpu_numa_node(17, Some("one")).unwrap_err();
    assert_eq!(e.message, "Invalid NUMA node");
}

#[test]
fn affinity_keeps_the_cpus_a_mask_can_hold() {
    assert_eq!(affinity_cpus(0, &vec![0, 1, 2048, 5]).unwrap(), vec![0, 1, 5]);
    let e = affinity_cpus(3, &vec![]).unwrap_err();
    assert_eq!(e.to_string(), "No CPUs found for NUMA node 3");
    assert_eq!(e.kind(), safer_ring::error::IoErrorKind::InvalidInput);
}

#[test]
fn numa_needs_more_than_one_node_entry() {
    assert!(!numa_available(None));
    assert!(!numa_available(Some(1)));
    assert!(numa_available(Some(2)));
}
