//! The session: the live screen, how each button acts on it, and the outside
//! work (listing, mounting, unmounting) that a button asks for.
use vstd::prelude::*;
use crate::config::Config;
use crate::device::{views, Device, DeviceView, EnumerationError, MountError, UnmountError};

verus! {

/// One of the four buttons of the panel.
#[derive(PartialEq, Eq, Structural, Clone, Copy, Debug)]
pub enum Button {
    A,
    B,
    C,
    D,
}

/// The button a key stands for: `a` or `7`, `b` or `1`, `c` or `9`, `d` or `3`.
pub open spec fn key_button(key: Seq<char>) -> Option<Button> {
    if key.len() != 1 {
        None
    } else {
        let c = key[0];
        if c == 'a' || c == '7' {
            Some(Button::A)
        } else if c == 'b' || c == '1' {
            Some(Button::B)
        } else if c == 'c' || c == '9' {
            Some(Button::C)
        } else if c == 'd' || c == '3' {
            Some(Button::D)
        } else {
            None
        }
    }
}

impl Button {
    /// The button that a key stands for, if any.
    pub fn from_key(key: &str) -> (r: Option<Button>)
        ensures
            r == key_button(key@),
    {
        if key.unicode_len() != 1 {
            return None;
        }
        let c = key.get_char(0);
        if c == 'a' || c == '7' {
            Some(Button::A)
        } else if c == 'b' || c == '1' {
            Some(Button::B)
        } else if c == 'c' || c == '9' {
            Some(Button::C)
        } else if c == 'd' || c == '3' {
            Some(Button::D)
        } else {
            None
        }
    }
}

/// The screen that is live.
#[derive(Clone, Debug, PartialEq, Eq)]
pub enum Screen {
    Home,
    /// The devices found, with the cursor on one of them (0 when there are none).
    Devices(Vec<Device>, usize),
    /// A failure shown to the user; the only way out is back to `Home`.
    Error(String),
    ConfirmExit,
}

/// The mathematical value of a `Screen`.
pub enum ScreenView {
    Home,
    Devices(Seq<DeviceView>, int),
    Error(Seq<char>),
    ConfirmExit,
}

impl View for Screen {
    type V = ScreenView;

    open spec fn view(&self) -> ScreenView {
        match self {
            Screen::Home => ScreenView::Home,
            Screen::Devices(ds, i) => ScreenView::Devices(views(ds@), *i as int),
            Screen::Error(m) => ScreenView::Error(m@),
            Screen::ConfirmExit => ScreenView::ConfirmExit,
        }
    }
}

/// A device list whose cursor is a valid index, or 0 on an empty list.
pub open spec fn cursor_ok(len: int, cursor: int) -> bool {
    if len == 0 {
        cursor == 0
    } else {
        0 <= cursor < len
    }
}

impl ScreenView {
    pub open spec fn wf(self) -> bool {
        match self {
            ScreenView::Devices(ds, i) => cursor_ok(ds.len() as int, i),
            _ => true,
        }
    }
}

/// Outside work that a button asks for. The driver does it and reports the
/// outcome back to the session.
#[derive(Clone, Debug, PartialEq, Eq)]
pub enum Request {
    Nothing,
    /// List the devices, then show them with the cursor at this index.
    Enumerate(usize),
    /// Mount this device, which sits at this index of the list.
    Mount(Device, usize),
    /// Unmount this device, which sits at this index of the list.
    Unmount(Device, usize),
}

/// The mathematical value of a `Request`.
pub enum RequestView {
    Nothing,
    Enumerate(int),
    Mount(DeviceView, int),
    Unmount(DeviceView, int),
}

impl View for Request {
    type V = RequestView;

    open spec fn view(&self) -> RequestView {
        match self {
            Request::Nothing => RequestView::Nothing,
            Request::Enumerate(c) => RequestView::Enumerate(*c as int),
            Request::Mount(d, c) => RequestView::Mount(d@, *c as int),
            Request::Unmount(d, c) => RequestView::Unmount(d@, *c as int),
        }
    }
}

/// The whole session state.
#[derive(Clone, Debug, PartialEq, Eq)]
pub struct App {
    pub screen: Screen,
    pub should_quit: bool,
    pub config: Config,
}

/// The mathematical value of an `App`.
pub struct AppView {
    pub screen: ScreenView,
    pub should_quit: bool,
    pub mount_path: Seq<char>,
}

impl View for App {
    type V = AppView;

    open spec fn view(&self) -> AppView {
        AppView {
            screen: self.screen@,
            should_quit: self.should_quit,
            mount_path: self.config.mount_path@,
        }
    }
}

pub open spec fn wifi_message() -> Seq<char> {
    "WiFi not implemented"@
}

pub open spec fn samba_message() -> Seq<char> {
    "Samba password\nnot implemented"@
}

pub open spec fn listing_message() -> Seq<char> {
    "Could not get devices"@
}

pub open spec fn mount_message(name: Seq<char>) -> Seq<char> {
    "Could not mount "@ + name
}

pub open spec fn unmount_message(name: Seq<char>) -> Seq<char> {
    "Could not unmount "@ + name
}

/// The session with another screen.
pub open spec fn with_screen(s: AppView, screen: ScreenView) -> AppView {
    AppView { screen, ..s }
}

/// What a button does to the session, and the outside work it asks for.
pub open spec fn transition(s: AppView, b: Button) -> (AppView, RequestView) {
    match s.screen {
        ScreenView::Home => match b {
            Button::A => (with_screen(s, ScreenView::Error(wifi_message())), RequestView::Nothing),
            Button::B => (with_screen(s, ScreenView::Error(samba_message())), RequestView::Nothing),
            Button::C => (s, RequestView::Enumerate(0)),
            Button::D => (with_screen(s, ScreenView::ConfirmExit), RequestView::Nothing),
        },
        ScreenView::Devices(ds, i) => match b {
            Button::D => (with_screen(s, ScreenView::Home), RequestView::Nothing),
            _ => if ds.len() == 0 {
                (s, RequestView::Nothing)
            } else {
                match b {
                    Button::A => (
                        with_screen(s, ScreenView::Devices(ds, if i == 0 { ds.len() - 1 } else { i - 1 })),
                        RequestView::Nothing,
                    ),
                    Button::B => (
                        with_screen(s, ScreenView::Devices(ds, if i == ds.len() - 1 { 0 } else { i + 1 })),
                        RequestView::Nothing,
                    ),
                    _ => (s, if ds[i].mounted {
                        RequestView::Unmount(ds[i], i)
                    } else {
                        RequestView::Mount(ds[i], i)
                    }),
                }
            },
        },
        ScreenView::Error(_) => match b {
            Button::A => (with_screen(s, ScreenView::Home), RequestView::Nothing),
            _ => (s, RequestView::Nothing),
        },
        ScreenView::ConfirmExit => match b {
            Button::A => (AppView { should_quit: true, ..s }, RequestView::Nothing),
            Button::B => (with_screen(s, ScreenView::Home), RequestView::Nothing),
            _ => (s, RequestView::Nothing),
        },
    }
}

/// The cursor after a re-listing: kept where it was, clamped to the last
/// entry, or 0 on an empty list.
pub open spec fn clamp_cursor(cursor: int, len: int) -> int {
    if len == 0 {
        0
    } else if cursor >= len {
        len - 1
    } else {
        cursor
    }
}

/// The screen after a listing comes back.
pub open spec fn listing_screen(
    cursor: int,
    listing: Result<Seq<DeviceView>, ()>,
) -> ScreenView {
    match listing {
        Ok(ds) => ScreenView::Devices(ds, clamp_cursor(cursor, ds.len() as int)),
        Err(_) => ScreenView::Error(listing_message()),
    }
}

/// The devices that teardown unmounts: those of the listing that are mounted,
/// in listing order.
pub open spec fn teardown_targets(ds: Seq<DeviceView>) -> Seq<DeviceView> {
    ds.filter(|d: DeviceView| d.mounted)
}

/// How many consecutive devices the list screen shows, from the cursor on.
pub const WINDOW: usize = 3;

/// The devices the list screen shows: up to `WINDOW` of them from the cursor on.
pub open spec fn window(ds: Seq<DeviceView>, cursor: int) -> Seq<DeviceView> {
    let lo = if cursor < ds.len() { cursor } else { ds.len() as int };
    let hi = if cursor + WINDOW < ds.len() { cursor + WINDOW } else { ds.len() as int };
    ds.subrange(lo, hi)
}

/// The devices the list screen shows for `devices` with the cursor at `cursor`.
pub fn visible_devices(devices: &Vec<Device>, cursor: usize) -> (r: Vec<Device>)
    ensures
        views(r@) == window(views(devices@), cursor as int),
{
    let n = devices.len();
    let lo = if cursor < n { cursor } else { n };
    let hi = if cursor < n && n - cursor > WINDOW { cursor + WINDOW } else { n };
    let mut out: Vec<Device> = Vec::new();
    let mut i: usize = lo;
    while i < hi
        invariant
            lo <= i <= hi <= n == devices@.len(),
            views(out@) == views(devices@).subrange(lo as int, i as int),
        decreases hi - i,
    {
        let ghost before = out@;
        out.push(devices[i].duplicate());
        assert(views(out@) =~= views(before).push(devices@[i as int]@));
        assert(views(out@) =~= views(devices@).subrange(lo as int, i + 1));
        i += 1;
    }
    out
}

/// The labels shown in the four corners, in the order top left, top right,
/// bottom left, bottom right; they name what buttons A, C, B and D do.
pub open spec fn labels(s: ScreenView) -> Seq<Seq<char>> {
    match s {
        ScreenView::Home => seq!["WIFI"@, "MNT"@, "SMB"@, "EXIT"@],
        ScreenView::Devices(ds, i) => if ds.len() == 0 {
            seq![""@, ""@, ""@, "BACK"@]
        } else if ds[i].mounted {
            seq!["^"@, "UMT"@, "v"@, "BACK"@]
        } else {
            seq!["^"@, "MNT"@, "v"@, "BACK"@]
        },
        ScreenView::Error(_) => seq!["BACK"@, ""@, ""@, ""@],
        ScreenView::ConfirmExit => seq!["YES"@, ""@, "NO"@, ""@],
    }
}

impl Screen {
    /// The corner labels of this screen.
    pub fn opts(&self) -> (r: [&'static str; 4])
        requires
            self@.wf(),
        ensures
            r@.len() == 4,
            forall|k: int| 0 <= k < 4 ==> (#[trigger] r@[k])@ == labels(self@)[k],
    {
        match self {
            Screen::Home => ["WIFI", "MNT", "SMB", "EXIT"],
            Screen::Devices(ds, i) => {
                if ds.len() == 0 {
                    ["", "", "", "BACK"]
                } else if ds[*i].mounted {
                    ["^", "UMT", "v", "BACK"]
                } else {
                    ["^", "MNT", "v", "BACK"]
                }
            },
            Screen::Error(_) => ["BACK", "", "", ""],
            Screen::ConfirmExit => ["YES", "", "NO", ""],
        }
    }
}

/// On a non-empty device list, "previous" (A) from the first entry moves the
/// cursor to the last entry, and "next" (B) from the last entry moves it to
/// the first; nothing else changes and no outside work is asked for.
pub proof fn lemma_cursor_wraps(s: AppView, ds: Seq<DeviceView>)
    requires
        ds.len() >= 1,
    ensures
        transition(with_screen(s, ScreenView::Devices(ds, 0)), Button::A) == (
            with_screen(s, ScreenView::Devices(ds, ds.len() - 1)),
            RequestView::Nothing,
        ),
        transition(with_screen(s, ScreenView::Devices(ds, ds.len() - 1)), Button::B) == (
            with_screen(s, ScreenView::Devices(ds, 0)),
            RequestView::Nothing,
        ),
{
}

/// On an empty device list, previous, next and toggle leave the session as
/// it is and ask for no outside work; back still returns home.
pub proof fn lemma_empty_list_inert(s: AppView, b: Button)
    requires
        s.screen == ScreenView::Devices(Seq::empty(), 0),
    ensures
        b != Button::D ==> transition(s, b) == (s, RequestView::Nothing),
        b == Button::D ==> transition(s, b) == (with_screen(s, ScreenView::Home), RequestView::Nothing),
        transition(s, b).0.screen.wf(),
{
}

/// `d` is the device under the cursor of a device list, and the cursor is at `i`.
pub open spec fn under_cursor(screen: ScreenView, d: DeviceView, i: int) -> bool {
    match screen {
        ScreenView::Devices(ds, c) => c == i && 0 <= i < ds.len() && ds[i] == d,
        _ => false,
    }
}

/// A button asks to mount only a device that the list shows unmounted, and
/// to unmount only one that it shows mounted: the device under the cursor.
pub proof fn lemma_toggle_follows_mounted(s: AppView, b: Button)
    requires
        s.screen.wf(),
    ensures
        match transition(s, b).1 {
            RequestView::Mount(d, i) => !d.mounted && under_cursor(s.screen, d, i),
            RequestView::Unmount(d, i) => d.mounted && under_cursor(s.screen, d, i),
            _ => true,
        },
{
}

/// Every transition keeps the cursor of a device list valid.
pub proof fn lemma_transition_wf(s: AppView, b: Button)
    requires
        s.screen.wf(),
    ensures
        transition(s, b).0.screen.wf(),
{
}

/// Teardown unmounts every device of its listing that is mounted, and no
/// other device.
pub proof fn lemma_teardown_complete(ds: Seq<DeviceView>)
    ensures
        forall|d: DeviceView| #[trigger] ds.contains(d) && d.mounted ==> teardown_targets(ds).contains(d),
        forall|d: DeviceView| #[trigger] teardown_targets(ds).contains(d) ==> ds.contains(d) && d.mounted,
{
    broadcast use vstd::seq_lib::group_filter_ensures;
    let f = |d: DeviceView| d.mounted;
    assert forall|d: DeviceView| #[trigger] ds.contains(d) && d.mounted implies teardown_targets(ds).contains(d) by {
        let k = choose|k: int| 0 <= k < ds.len() && ds[k] == d;
        ds.lemma_filter_contains(f, k);
    }
    assert forall|d: DeviceView| #[trigger] teardown_targets(ds).contains(d) implies ds.contains(d) && d.mounted by {
        ds.lemma_filter_contains_rev(f, d);
    }
}

impl App {
    pub open spec fn wf(&self) -> bool {
        self.screen@.wf()
    }

    /// Acts on one button press.
    pub fn press(&mut self, b: Button) -> (r: Request)
        requires
            old(self).wf(),
        ensures
            final(self).wf(),
            (final(self)@, r@) == transition(old(self)@, b),
    {
        let mut next: Option<Screen> = None;
        let mut req = Request::Nothing;
        match &mut self.screen {
            Screen::Home => {
                match b {
                    Button::A => {
                        next = Some(Screen::Error(String::from_str("WiFi not implemented")));
                    },
                    Button::B => {
                        next = Some(Screen::Error(String::from_str("Samba password\nnot implemented")));
                    },
                    Button::C => {
                        req = Request::Enumerate(0);
                    },
                    Button::D => {
                        next = Some(Screen::ConfirmExit);
                    },
                }
            },
            Screen::Devices(ds, idx) => {
                let n = ds.len();
                if b == Button::D {
                    next = Some(Screen::Home);
                } else if n > 0 {
                    if b == Button::A {
                        *idx = if *idx == 0 { n - 1 } else { *idx - 1 };
                    } else if b == Button::B {
                        *idx = if *idx == n - 1 { 0 } else { *idx + 1 };
                    } else {
                        let d = ds[*idx].duplicate();
                        let c = *idx;
                        req = if d.mounted { Request::Unmount(d, c) } else { Request::Mount(d, c) };
                    }
                }
            },
            Screen::Error(_) => {
                if b == Button::A {
                    next = Some(Screen::Home);
                }
            },
            Screen::ConfirmExit => {
                if b == Button::A {
                    self.should_quit = true;
                } else if b == Button::B {
                    next = Some(Screen::Home);
                }
            },
        }
        if let Some(s) = next {
            self.screen = s;
        }
        req
    }

    /// A session on the home screen, not quitting, with the given settings.
    pub fn new(config: Config) -> (r: App)
        ensures
            r.wf(),
            r@ == (AppView { screen: ScreenView::Home, should_quit: false, mount_path: config.mount_path@ }),
    {
        App { screen: Screen::Home, should_quit: false, config }
    }

    /// Whether the user has confirmed exit.
    pub fn should_exit(&self) -> (r: bool)
        ensures
            r == self.should_quit,
    {
        self.should_quit
    }

    /// Takes the loaded settings, if any were loaded; keeps the current ones otherwise.
    pub fn load_config(&mut self, loaded: Option<Config>)
        requires
            old(self).wf(),
        ensures
            final(self).wf(),
            final(self).screen@ == old(self).screen@,
            final(self).should_quit == old(self).should_quit,
            final(self).config.mount_path@ == match loaded {
                Some(c) => c.mount_path@,
                None => old(self).config.mount_path@,
            },
    {
        if let Some(c) = loaded {
            self.config = c;
        }
    }

    /// Acts on one key of the input layer; keys that stand for no button are ignored.
    pub fn handle_input(&mut self, input: &str) -> (r: Request)
        requires
            old(self).wf(),
        ensures
            final(self).wf(),
            match key_button(input@) {
                Some(b) => (final(self)@, r@) == transition(old(self)@, b),
                None => final(self)@ == old(self)@ && r is Nothing,
            },
    {
        match Button::from_key(input) {
            Some(b) => self.press(b),
            None => Request::Nothing,
        }
    }

    /// Shows the outcome of a listing: the devices with the cursor kept at
    /// `cursor` as far as the list allows, or the listing error.
    pub fn devices(&mut self, cursor: usize, listing: Result<Vec<Device>, EnumerationError>)
        requires
            old(self).wf(),
        ensures
            final(self).wf(),
            final(self)@ == with_screen(
                old(self)@,
                listing_screen(
                    cursor as int,
                    match listing {
                        Ok(ds) => Ok(views(ds@)),
                        Err(_) => Err(()),
                    },
                ),
            ),
    {
        match listing {
            Ok(ds) => {
                let n = ds.len();
                let c = if n == 0 {
                    0
                } else if cursor >= n {
                    n - 1
                } else {
                    cursor
                };
                self.screen = Screen::Devices(ds, c);
            },
            Err(_) => {
                self.screen = Screen::Error(String::from_str("Could not get devices"));
            },
        }
    }

    /// Takes the outcome of mounting `device`, which sat at `cursor`: on
    /// success the devices are listed again with the cursor kept there; on
    /// failure the error screen names the device.
    pub fn mounted(&mut self, device: &Device, cursor: usize, outcome: Result<(), MountError>) -> (r: Request)
        requires
            old(self).wf(),
        ensures
            final(self).wf(),
            outcome is Ok ==> final(self)@ == old(self)@ && r@ == RequestView::Enumerate(cursor as int),
            outcome is Err ==> final(self)@ == with_screen(old(self)@, ScreenView::Error(mount_message(device.name@)))
                && r is Nothing,
    {
        match outcome {
            Ok(()) => Request::Enumerate(cursor),
            Err(_) => {
                self.screen = Screen::Error(String::from_str("Could not mount ").concat(device.name.as_str()));
                Request::Nothing
            },
        }
    }

    /// Takes the outcome of unmounting `device`, which sat at `cursor`: on
    /// success the devices are listed again with the cursor kept there; on
    /// failure the error screen names the device.
    pub fn unmounted(&mut self, device: &Device, cursor: usize, outcome: Result<(), UnmountError>) -> (r: Request)
        requires
            old(self).wf(),
        ensures
            final(self).wf(),
            outcome is Ok ==> final(self)@ == old(self)@ && r@ == RequestView::Enumerate(cursor as int),
            outcome is Err ==> final(self)@ == with_screen(old(self)@, ScreenView::Error(unmount_message(device.name@)))
                && r is Nothing,
    {
        match outcome {
            Ok(()) => Request::Enumerate(cursor),
            Err(_) => {
                self.screen = Screen::Error(String::from_str("Could not unmount ").concat(device.name.as_str()));
                Request::Nothing
            },
        }
    }
}

/// The devices to unmount at session end: the mounted ones of a fresh
/// listing, in its order; none when the listing failed.
pub fn teardown_devices(listing: &Result<Vec<Device>, EnumerationError>) -> (r: Vec<Device>)
    ensures
        views(r@) == match listing {
            Ok(ds) => teardown_targets(views(ds@)),
            Err(_) => Seq::empty(),
        },
{
    let mut out: Vec<Device> = Vec::new();
    match listing {
        Ok(ds) => {
            let mut i: usize = 0;
            proof {
                reveal(Seq::filter);
                assert(views(ds@.take(0)) =~= Seq::empty());
            }
            while i < ds.len()
                invariant
                    i <= ds@.len(),
                    views(out@) == teardown_targets(views(ds@.take(i as int))),
                decreases ds@.len() - i,
            {
                let ghost before = out@;
                reveal(Seq::filter);
                assert(views(ds@.take(i as int + 1)).drop_last() =~= views(ds@.take(i as int)));
                assert(views(ds@.take(i as int + 1)).last() == ds@[i as int]@);
                if ds[i].mounted {
                    out.push(ds[i].duplicate());
                    assert(views(out@) =~= views(before).push(ds@[i as int]@));
                } else {
                    assert(views(out@) =~= views(before));
                }
                i += 1;
            }
            assert(ds@.take(ds@.len() as int) =~= ds@);
        },
        Err(_) => {
        },
    }
    out
}

/// Whether teardown removes a directory entry met while walking the mount
/// root: only the mount root itself, and only when it is a directory.
pub fn removes_entry(entry: &String, is_dir: bool, root: &String) -> (r: bool)
    ensures
        r == (is_dir && entry@ == root@),
{
    is_dir && *entry == *root
}

} // verus!
