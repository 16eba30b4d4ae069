//! Partitions as the block-device listing reports them, the devices offered
//! to the user, and the pure parts of mounting and unmounting.
use vstd::prelude::*;

verus! {

/// One partition of a top-level block device, as the listing reports it.
#[derive(Clone, Debug, PartialEq, Eq)]
pub struct Children {
    pub name: String,
    pub size: String,
    pub mountpoints: Vec<Option<String>>,
}

/// A top-level block device with its partitions.
#[derive(Clone, Debug, PartialEq, Eq)]
pub struct Blockdevice {
    pub children: Vec<Children>,
}

/// The whole structured output of the block-device listing.
#[derive(Clone, Debug, PartialEq, Eq)]
pub struct DeviceQuery {
    pub blockdevices: Vec<Blockdevice>,
}

/// A partition that the user may mount or unmount.
#[derive(Clone, Debug, PartialEq, Eq)]
pub struct Device {
    pub name: String,
    pub mounted: bool,
    pub size: String,
    /// The directory this device is mounted on: the mount root joined with `name`.
    pub path: String,
}

/// The mathematical value of a `Device`.
pub struct DeviceView {
    pub name: Seq<char>,
    pub mounted: bool,
    pub size: Seq<char>,
    pub path: Seq<char>,
}

impl View for Device {
    type V = DeviceView;

    open spec fn view(&self) -> DeviceView {
        DeviceView { name: self.name@, mounted: self.mounted, size: self.size@, path: self.path@ }
    }
}

impl Device {
    /// A copy of the device.
    pub fn duplicate(&self) -> (r: Device)
        ensures
            r@ == self@,
    {
        Device {
            name: self.name.clone(),
            mounted: self.mounted,
            size: self.size.clone(),
            path: self.path.clone(),
        }
    }
}

/// The views of a sequence of devices.
pub open spec fn views(ds: Seq<Device>) -> Seq<DeviceView> {
    ds.map_values(|d: Device| d@)
}

/// `p` is a prefix of `s`.
pub open spec fn is_prefix(p: Seq<char>, s: Seq<char>) -> bool {
    p.len() <= s.len() && s.subrange(0, p.len() as int) == p
}

/// A directory path joined with one more component: an absolute component
/// replaces the path, otherwise a separator is put between the two unless the
/// path is empty or already ends in one.
pub open spec fn join_path(dir: Seq<char>, name: Seq<char>) -> Seq<char> {
    if name.len() > 0 && name[0] == '/' {
        name
    } else if dir.len() == 0 || dir.last() == '/' {
        dir + name
    } else {
        dir + seq!['/'] + name
    }
}

/// The partition has at least one mountpoint.
pub open spec fn has_mountpoint(mps: Seq<Option<String>>) -> bool {
    exists|i: int| 0 <= i < mps.len() && (#[trigger] mps[i]) is Some
}

/// The partition has a mountpoint that lies under `root`.
pub open spec fn mounted_under(mps: Seq<Option<String>>, root: Seq<char>) -> bool {
    exists|i: int| 0 <= i < mps.len() && (#[trigger] mps[i]) is Some && is_prefix(root, mps[i]->0@)
}

/// What the listing makes of one partition: nothing when it is mounted only
/// outside the canonical mount root `canon`, else a device under `root`,
/// mounted exactly when it has a mountpoint.
pub open spec fn listing_entry(p: Children, root: Seq<char>, canon: Seq<char>) -> Option<DeviceView> {
    if has_mountpoint(p.mountpoints@) && !mounted_under(p.mountpoints@, canon) {
        None
    } else {
        Some(DeviceView {
            name: p.name@,
            mounted: has_mountpoint(p.mountpoints@),
            size: p.size@,
            path: join_path(root, p.name@),
        })
    }
}

/// The partitions of all top-level devices, in listing order.
pub open spec fn partitions(bds: Seq<Blockdevice>) -> Seq<Children>
    decreases bds.len(),
{
    if bds.len() == 0 {
        Seq::empty()
    } else {
        partitions(bds.drop_last()) + bds.last().children@
    }
}

/// The devices offered for a sequence of partitions, in their order.
pub open spec fn entries(parts: Seq<Children>, root: Seq<char>, canon: Seq<char>) -> Seq<DeviceView> {
    parts.filter_map(|p: Children| listing_entry(p, root, canon))
}

/// The devices offered for a whole listing.
pub open spec fn listed(q: DeviceQuery, root: Seq<char>, canon: Seq<char>) -> Seq<DeviceView> {
    entries(partitions(q.blockdevices@), root, canon)
}

/// A mountpoint that belongs to the system: the root, the boot partitions, swap.
pub open spec fn system_mountpoint(m: Seq<char>) -> bool {
    m == "/"@ || m == "/boot"@ || m == "/boot/efi"@ || m == "[SWAP]"@
}

/// A partition mounted only at system mountpoints, none of which lies under
/// the canonical mount root, is never offered: no device comes of it, and
/// every device of a listing comes from a partition of that listing that
/// is unmounted or mounted under the root. The listing is a function of its
/// inputs, so repeated calls agree.
pub proof fn lemma_system_partitions_hidden(
    q: DeviceQuery,
    root: Seq<char>,
    canon: Seq<char>,
    p: Children,
    d: DeviceView,
)
    requires
        has_mountpoint(p.mountpoints@),
        forall|i: int| 0 <= i < p.mountpoints@.len() && (#[trigger] p.mountpoints@[i]) is Some
            ==> system_mountpoint(p.mountpoints@[i]->0@),
        forall|m: Seq<char>| system_mountpoint(m) ==> !is_prefix(canon, m),
    ensures
        listing_entry(p, root, canon) is None,
        listed(q, root, canon).contains(d) ==> exists|c: Children|
            #[trigger] partitions(q.blockdevices@).contains(c) && listing_entry(c, root, canon) == Some(d)
                && (!has_mountpoint(c.mountpoints@) || mounted_under(c.mountpoints@, canon)),
{
    let mps = p.mountpoints@;
    assert(!mounted_under(mps, canon)) by {
        if mounted_under(mps, canon) {
            let i = choose|i: int| 0 <= i < mps.len() && (#[trigger] mps[i]) is Some && is_prefix(canon, mps[i]->0@);
            assert(system_mountpoint(mps[i]->0@));
        }
    }
    if listed(q, root, canon).contains(d) {
        let f = |c: Children| listing_entry(c, root, canon);
        partitions(q.blockdevices@).lemma_filter_map_contains(f, d);
    }
}

/// Whether `s` starts with `p`.
pub fn starts_with(s: &str, p: &str) -> (r: bool)
    ensures
        r == is_prefix(p@, s@),
{
    let n = p.unicode_len();
    let m = s.unicode_len();
    if n > m {
        return false;
    }
    let mut i: usize = 0;
    while i < n
        invariant
            n == p@.len(),
            m == s@.len(),
            n <= m,
            i <= n,
            forall|j: int| 0 <= j < i ==> s@[j] == p@[j],
        decreases n - i,
    {
        if s.get_char(i) != p.get_char(i) {
            assert(s@.subrange(0, n as int)[i as int] != p@[i as int]);
            return false;
        }
        i += 1;
    }
    assert(s@.subrange(0, n as int) =~= p@);
    true
}

/// `dir` joined with `name`, as a path.
pub fn join(dir: &String, name: &String) -> (r: String)
    ensures
        r@ == join_path(dir@, name@),
{
    let n = name.as_str();
    if n.unicode_len() > 0 && n.get_char(0) == '/' {
        return name.clone();
    }
    let d = dir.as_str();
    let k = d.unicode_len();
    if k == 0 || d.get_char(k - 1) == '/' {
        dir.clone().concat(n)
    } else {
        proof {
            reveal_strlit("/");
        }
        let r = dir.clone().concat("/").concat(n);
        assert(r@ =~= dir@ + seq!['/'] + name@);
        r
    }
}

/// The device that the listing offers for one partition, if any.
fn entry_of(part: &Children, root: &String, canon: &String) -> (r: Option<Device>)
    ensures
        r matches Some(d) ==> listing_entry(*part, root@, canon@) == Some(d@),
        r is None ==> listing_entry(*part, root@, canon@) is None,
{
    let mps = &part.mountpoints;
    let mut any = false;
    let mut under = false;
    let mut k: usize = 0;
    while k < mps.len()
        invariant
            k <= mps@.len(),
            any == exists|i: int| 0 <= i < k && (#[trigger] mps@[i]) is Some,
            under == exists|i: int|
                0 <= i < k && (#[trigger] mps@[i]) is Some && is_prefix(canon@, mps@[i]->0@),
        decreases mps@.len() - k,
    {
        match &mps[k] {
            Some(m) => {
                any = true;
                if starts_with(m.as_str(), canon.as_str()) {
                    under = true;
                }
            },
            None => {},
        }
        k += 1;
    }
    if any && !under {
        None
    } else {
        Some(Device {
            name: part.name.clone(),
            mounted: any,
            size: part.size.clone(),
            path: join(root, &part.name),
        })
    }
}

/// The devices offered by a listing: every partition of every top-level
/// device, in listing order, except those mounted only outside the mount
/// root. `root` is the configured mount root, which each device's path is
/// joined onto; `canon` is its canonical form, against which mountpoints are
/// matched.
pub fn list_devices(query: &DeviceQuery, root: &String, canon: &String) -> (r: Vec<Device>)
    ensures
        views(r@) == listed(*query, root@, canon@),
{
    let bds = &query.blockdevices;
    let mut out: Vec<Device> = Vec::new();
    let mut i: usize = 0;
    while i < bds.len()
        invariant
            i <= bds@.len(),
            views(out@) == entries(partitions(bds@.take(i as int)), root@, canon@),
        decreases bds@.len() - i,
    {
        let parts = &bds[i].children;
        let ghost done = partitions(bds@.take(i as int));
        let mut j: usize = 0;
        while j < parts.len()
            invariant
                i < bds@.len(),
                parts == bds@[i as int].children,
                j <= parts@.len(),
                views(out@) == entries(done + parts@.take(j as int), root@, canon@),
            decreases parts@.len() - j,
        {
            let ghost before = done + parts@.take(j as int);
            let ghost after = done + parts@.take(j as int + 1);
            assert(after.drop_last() =~= before);
            assert(after.last() == parts@[j as int]);
            let e = entry_of(&parts[j], root, canon);
            match e {
                Some(d) => {
                    let ghost old_out = out@;
                    out.push(d);
                    assert(views(out@) =~= views(old_out) + seq![d@]);
                },
                None => {},
            }
            j += 1;
        }
        assert(bds@.take(i as int + 1).drop_last() =~= bds@.take(i as int));
        assert(parts@.take(parts@.len() as int) =~= parts@);
        i += 1;
    }
    assert(bds@.take(bds@.len() as int) =~= bds@);
    out
}

/// Why the devices could not be listed.
#[derive(Clone, Debug, PartialEq, Eq)]
pub enum EnumerationError {
    /// The listing facility could not be run.
    Listing(String),
    /// Its output did not have the expected shape.
    Parse(String),
}

/// Why a device could not be mounted.
#[derive(Clone, Debug, PartialEq, Eq)]
pub enum MountError {
    /// The mount point could not be created.
    CreateDir(String),
    /// The mount facility could not be run or reported failure.
    Facility(String),
}

/// Why a device could not be unmounted.
#[derive(Clone, Debug, PartialEq, Eq)]
pub enum UnmountError {
    /// The unmount facility could not be run or reported failure.
    Facility(String),
}

/// Whether a mount facility run succeeded, as a result.
pub fn mount_outcome(success: bool, diagnostic: String) -> (r: Result<(), MountError>)
    ensures
        success ==> r is Ok,
        !success ==> r == Err::<(), MountError>(MountError::Facility(diagnostic)),
{
    if success {
        Ok(())
    } else {
        Err(MountError::Facility(diagnostic))
    }
}

/// Whether an unmount facility run succeeded, as a result.
pub fn unmount_outcome(success: bool, diagnostic: String) -> (r: Result<(), UnmountError>)
    ensures
        success ==> r is Ok,
        !success ==> r == Err::<(), UnmountError>(UnmountError::Facility(diagnostic)),
{
    if success {
        Ok(())
    } else {
        Err(UnmountError::Facility(diagnostic))
    }
}

impl Device {
    /// The block-device node the mount facility reads: `/dev/` and the name.
    pub fn mount_source(&self) -> (r: String)
        ensures
            r@ == "/dev/"@ + self.name@,
    {
        String::from_str("/dev/").concat(self.name.as_str())
    }
}

} // verus!
