use drive_pi::app::{teardown_devices, removes_entry, visible_devices};
use drive_pi::device::{
    join, list_devices, mount_outcome, starts_with, unmount_outcome, Blockdevice, Children, Device,
    DeviceQuery, EnumerationError, MountError, UnmountError,
};

fn part(name: &str, size: &str, mountpoints: &[Option<&str>]) -> Children {
    Children {
        name: name.to_string(),
        size: size.to_string(),
        mountpoints: mountpoints.iter().map(|m| m.map(|x| x.to_string())).collect(),
    }
}

fn query(devices: Vec<Vec<Children>>) -> DeviceQuery {
    DeviceQuery {
        blockdevices: devices.into_iter().map(|children| Blockdevice { children }).collect(),
    }
}

fn dev(name: &str, mounted: bool) -> Device {
    Device {
        name: name.to_string(),
        mounted,
        size: "8G".to_string(),
        path: format!("/mnt/drive/{name}"),
    }
}

fn root() -> String {
    "/mnt/drive".to_string()
}

#[test]
fn single_unmounted_partition_is_listed() {
    let q = query(vec![vec![part("sda1", "32G", &[None])]]);
    let ds = list_devices(&q, &root(), &root());
    assert_eq!(ds.len(), 1);
    assert_eq!(ds[0].name, "sda1");
    assert_eq!(ds[0].size, "32G");
    assert!(!ds[0].mounted);
    assert_eq!(ds[0].path, "/mnt/drive/sda1");
}

#[test]
fn partition_without_mountpoint_entries_is_unmounted() {
    let q = query(vec![vec![part("sdc1", "1G", &[])]]);
    let ds = list_devices(&q, &root(), &root());
    assert_eq!(ds.len(), 1);
    assert!(!ds[0].mounted);
}

#[test]
fn system_partitions_are_hidden() {
    let q = query(vec![
        vec![
            part("mmcblk0p1", "256M", &[Some("/boot")]),
            part("mmcblk0p2", "29G", &[Some("/")]),
            part("mmcblk0p3", "1G", &[Some("[SWAP]")]),
            part("mmcblk0p4", "512M", &[Some("/boot/efi")]),
        ],
        vec![
            part("sdb1", "16G", &[None]),
            part("sdb2", "64G", &[Some("/mnt/drive/sdb2")]),
            part("sdb3", "2G", &[Some("/media/other")]),
        ],
    ]);
    let first = list_devices(&q, &root(), &root());
    let names: Vec<&str> = first.iter().map(|d| d.name.as_str()).collect();
    assert_eq!(names, vec!["sdb1", "sdb2"]);
    assert!(!first[0].mounted);
    assert!(first[1].mounted);
    let second = list_devices(&q, &root(), &root());
    assert_eq!(first, second);
}

#[test]
fn mounted_elsewhere_and_under_root_is_listed_mounted() {
    let q = query(vec![vec![part("sdd1", "4G", &[Some("/media/x"), None, Some("/mnt/drive/sdd1")])]]);
    let ds = list_devices(&q, &root(), &root());
    assert_eq!(ds.len(), 1);
    assert!(ds[0].mounted);
}

#[test]
fn listing_keeps_order_and_skips_top_level_devices() {
    let q = query(vec![
        vec![],
        vec![part("sdb2", "1G", &[None]), part("sdb1", "2G", &[None])],
        vec![part("sda1", "3G", &[None])],
    ]);
    let ds = list_devices(&q, &root(), &root());
    let names: Vec<&str> = ds.iter().map(|d| d.name.as_str()).collect();
    assert_eq!(names, vec!["sdb2", "sdb1", "sda1"]);
}

#[test]
fn empty_listing_gives_no_devices() {
    let q = query(vec![]);
    assert!(list_devices(&q, &root(), &root()).is_empty());
}

#[test]
fn mountpoints_match_the_canonical_root_and_paths_use_the_configured_one() {
    let q = query(vec![vec![part("sda1", "8G", &[Some("/home/pi/drives/sda1")])]]);
    let ds = list_devices(&q, &"./".to_string(), &"/home/pi/drives".to_string());
    assert_eq!(ds.len(), 1);
    assert!(ds[0].mounted);
    assert_eq!(ds[0].path, "./sda1");
}

#[test]
fn join_puts_one_separator() {
    assert_eq!(join(&"/mnt".to_string(), &"sda1".to_string()), "/mnt/sda1");
    assert_eq!(join(&"/mnt/".to_string(), &"sda1".to_string()), "/mnt/sda1");
    assert_eq!(join(&"./".to_string(), &"sda1".to_string()), "./sda1");
    assert_eq!(join(&"".to_string(), &"sda1".to_string()), "sda1");
    assert_eq!(join(&"/mnt".to_string(), &"/abs".to_string()), "/abs");
}

#[test]
fn starts_with_compares_prefixes() {
    assert!(starts_with("/mnt/drive/sda1", "/mnt/drive"));
    assert!(starts_with("/mnt", ""));
    assert!(starts_with("/mnt", "/mnt"));
    assert!(!starts_with("/mnt", "/mnt/drive"));
    assert!(!starts_with("/boot", "/mnt"));
}

#[test]
fn mount_source_is_the_device_node() {
    assert_eq!(dev("sda1", false).mount_source(), "/dev/sda1");
}

#[test]
fn mount_outcome_carries_the_diagnostic() {
    assert_eq!(mount_outcome(true, String::new()), Ok(()));
    assert_eq!(
        mount_outcome(false, "wrong fs type".to_string()),
        Err(MountError::Facility("wrong fs type".to_string()))
    );
}

#[test]
fn unmount_outcome_carries_the_diagnostic() {
    assert_eq!(unmount_outcome(true, String::new()), Ok(()));
    assert_eq!(
        unmount_outcome(false, "target is busy".to_string()),
        Err(UnmountError::Facility("target is busy".to_string()))
    );
}

#[test]
fn teardown_unmounts_exactly_the_mounted_devices() {
    let listing = Ok(vec![dev("sda1", true), dev("sdb1", false), dev("sdc1", true)]);
    let targets = teardown_devices(&listing);
    assert_eq!(targets, vec![dev("sda1", true), dev("sdc1", true)]);
}

#[test]
fn teardown_after_failed_listing_unmounts_nothing() {
    let listing: Result<Vec<Device>, EnumerationError> =
        Err(EnumerationError::Listing("lsblk missing".to_string()));
    assert!(teardown_devices(&listing).is_empty());
}

#[test]
fn teardown_removes_only_the_mount_root() {
    let r = root();
    assert!(removes_entry(&r, true, &r));
    assert!(!removes_entry(&r, false, &r));
    assert!(!removes_entry(&"/mnt/drive/sda1".to_string(), true, &r));
}

#[test]
fn window_shows_three_from_the_cursor() {
    let ds = vec![dev("a", false), dev("b", false), dev("c", false), dev("d", false), dev("e", false)];
    assert_eq!(visible_devices(&ds, 0), ds[0..3].to_vec());
    assert_eq!(visible_devices(&ds, 1), ds[1..4].to_vec());
    assert_eq!(visible_devices(&ds, 3), ds[3..5].to_vec());
    assert_eq!(visible_devices(&ds, 4), ds[4..5].to_vec());
    assert!(visible_devices(&ds, 7).is_empty());
    assert!(visible_devices(&vec![], 0).is_empty());
}
