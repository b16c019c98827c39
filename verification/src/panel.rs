//! The state of the native platforms panel: the detected Xcode project, its
//! schemes, the run destinations, and which scheme and destination are
//! selected.
use vstd::prelude::*;

verus! {

/// Key under which the panel saves its state, and the panel's persistent name.
pub const NATIVE_PLATFORMS_PANEL_KEY: &'static str = "NativePlatformsPanel";

/// Kind of a run destination.
#[derive(Clone, Copy, Debug, PartialEq, Eq, Structural)]
pub enum DeviceType {
    PhysicalDevice,
    Simulator,
}

/// Power state of a run destination.
#[derive(Clone, Copy, Debug, PartialEq, Eq, Structural)]
pub enum DeviceState {
    Booted,
    Shutdown,
    Unknown,
}

/// A run destination: a connected device or a simulator.
#[derive(Clone, Debug, PartialEq, Eq)]
pub struct Device {
    pub id: String,
    pub name: String,
    pub os_version: Option<String>,
    pub device_type: DeviceType,
    pub state: DeviceState,
}

impl Device {
    /// A copy of the device.
    pub fn duplicate(&self) -> (r: Device)
        ensures
            r == *self,
    {
        let os_version = match &self.os_version {
            Some(version) => Some(version.clone()),
            None => None,
        };
        Device {
            id: self.id.clone(),
            name: self.name.clone(),
            os_version,
            device_type: self.device_type,
            state: self.state,
        }
    }
}

/// An Xcode project or workspace found in a worktree.
#[derive(Clone, Debug, PartialEq, Eq)]
pub struct XcodeProject {
    pub path: String,
}

/// Build configuration of a pipeline.
#[derive(Clone, Copy, Debug, PartialEq, Eq, Structural)]
pub enum BuildConfiguration {
    Debug,
    Release,
}

/// What a build or run pipeline is started with.
#[derive(Clone, Debug, PartialEq, Eq)]
pub struct BuildOptions {
    pub scheme: String,
    pub configuration: BuildConfiguration,
    pub destination: Option<Device>,
    pub clean: bool,
    pub derived_data_path: Option<String>,
}

/// The selection that the panel saves and restores across sessions.
#[derive(Clone, Debug, PartialEq, Eq)]
pub struct PanelSelection {
    pub selected_scheme: Option<String>,
    pub selected_device_id: Option<String>,
}

/// Where a dock panel stands.
#[derive(Clone, Copy, Debug, PartialEq, Eq, Structural)]
pub enum DockPosition {
    Left,
    Bottom,
    Right,
}

/// What the destination section shows below its title.
#[derive(Clone, Copy, Debug, PartialEq, Eq, Structural)]
pub enum DevicesSection {
    /// A progress bar while the device list is being refreshed.
    Loading,
    /// The dropdown of destinations.
    Devices,
    /// The note that no destination is available.
    NoDevices,
}

/// Which controls the panel's footer offers.
#[derive(Clone, Copy, Debug, PartialEq, Eq, Structural)]
pub struct FooterControls {
    /// A pipeline runs: progress bar and stop button.
    pub building: bool,
    /// The build and run buttons are enabled.
    pub can_build: bool,
    /// The button that terminates the launched app is shown.
    pub can_terminate: bool,
}

/// The two lines of the project header.
#[derive(Clone, Debug, PartialEq, Eq)]
pub struct ProjectHeader {
    pub name: String,
    pub subtitle: String,
}

/// The panel's state as values.
pub struct PanelView {
    pub xcode_project: Option<XcodeProject>,
    pub schemes: Seq<String>,
    pub selected_scheme: Option<String>,
    pub devices: Seq<Device>,
    pub selected_device: Option<Device>,
    pub loading_devices: bool,
}

/// The native platforms panel's project, scheme and destination state.
pub struct NativePlatformsPanel {
    xcode_project: Option<XcodeProject>,
    schemes: Vec<String>,
    selected_scheme: Option<String>,
    devices: Vec<Device>,
    selected_device: Option<Device>,
    loading_devices: bool,
}

impl View for NativePlatformsPanel {
    type V = PanelView;

    closed spec fn view(&self) -> PanelView {
        PanelView {
            xcode_project: self.xcode_project,
            schemes: self.schemes@,
            selected_scheme: self.selected_scheme,
            devices: self.devices@,
            selected_device: self.selected_device,
            loading_devices: self.loading_devices,
        }
    }
}

/// Some listed device has the id `id`.
pub open spec fn has_device_with_id(devices: Seq<Device>, id: Seq<char>) -> bool {
    exists|i: int| 0 <= i < devices.len() && #[trigger] devices[i].id@ == id
}

/// The selected destination, when there is one, has the id of a listed device.
pub open spec fn selection_listed(v: PanelView) -> bool {
    v.selected_device is Some ==> has_device_with_id(v.devices, v.selected_device->0.id@)
}

/// `i` is the first position of a device with id `id`.
pub open spec fn is_first_with_id(devices: Seq<Device>, id: Seq<char>, i: int) -> bool {
    &&& 0 <= i < devices.len()
    &&& devices[i].id@ == id
    &&& forall|j: int| 0 <= j < i ==> #[trigger] devices[j].id@ != id
}

/// The first listed device with id `id`.
pub open spec fn first_with_id(devices: Seq<Device>, id: Seq<char>) -> Option<Device> {
    if has_device_with_id(devices, id) {
        Some(devices[choose|i: int| is_first_with_id(devices, id, i)])
    } else {
        None
    }
}

/// Some listed device is booted.
pub open spec fn has_booted_device(devices: Seq<Device>) -> bool {
    exists|i: int| 0 <= i < devices.len() && #[trigger] devices[i].state == DeviceState::Booted
}

/// `i` is the first position of a booted device.
pub open spec fn is_first_booted(devices: Seq<Device>, i: int) -> bool {
    &&& 0 <= i < devices.len()
    &&& devices[i].state == DeviceState::Booted
    &&& forall|j: int| 0 <= j < i ==> #[trigger] devices[j].state != DeviceState::Booted
}

/// The destination chosen when none is selected: the first booted device,
/// else the first device.
pub open spec fn default_destination(devices: Seq<Device>) -> Option<Device> {
    if has_booted_device(devices) {
        Some(devices[choose|i: int| is_first_booted(devices, i)])
    } else if devices.len() > 0 {
        Some(devices[0])
    } else {
        None
    }
}

/// The selection after the device list became `devices`: the selected device
/// stays while a device with its id is listed, and otherwise the default
/// destination is taken.
pub open spec fn refreshed_selection(selected: Option<Device>, devices: Seq<Device>) -> Option<Device> {
    match selected {
        Some(d) => if has_device_with_id(devices, d.id@) {
            Some(d)
        } else {
            default_destination(devices)
        },
        None => default_destination(devices),
    }
}

/// The device list made of the physical devices followed by the simulators,
/// if the simulators could be listed.
pub open spec fn merged_devices(physical: Seq<Device>, simulators: Option<Vec<Device>>) -> Seq<Device> {
    match simulators {
        Some(s) => physical + s@,
        None => physical,
    }
}

/// What the panel saves of its state: the selected scheme and the id of the
/// selected destination.
pub open spec fn saved_selection(v: PanelView) -> PanelSelection {
    PanelSelection {
        selected_scheme: v.selected_scheme,
        selected_device_id: match v.selected_device {
            Some(d) => Some(d.id),
            None => None,
        },
    }
}

/// The selected destination after restoring `selection`: the first listed
/// device with the saved id, or the current one when no id was saved.
pub open spec fn restored_device(v: PanelView, selection: PanelSelection) -> Option<Device> {
    match selection.selected_device_id {
        Some(id) => first_with_id(v.devices, id@),
        None => v.selected_device,
    }
}

/// The options a pipeline starts with: the selected scheme in the debug
/// configuration on the selected destination; none without a project or a
/// scheme.
pub open spec fn pipeline_options_of(v: PanelView) -> Option<BuildOptions> {
    if v.xcode_project is Some && v.selected_scheme is Some {
        Some(BuildOptions {
            scheme: v.selected_scheme->0,
            configuration: BuildConfiguration::Debug,
            destination: v.selected_device,
            clean: false,
            derived_data_path: None,
        })
    } else {
        None
    }
}

/// `i` is the first position of a scheme named `name`.
pub open spec fn is_first_scheme(schemes: Seq<String>, name: Seq<char>, i: int) -> bool {
    &&& 0 <= i < schemes.len()
    &&& schemes[i]@ == name
    &&& forall|j: int| 0 <= j < i ==> #[trigger] schemes[j]@ != name
}

/// The dropdown position of the selected scheme: the first scheme of that
/// name, else 0.
pub open spec fn scheme_index_of(schemes: Seq<String>, selected: Option<String>) -> int {
    match selected {
        Some(name) => if exists|i: int| 0 <= i < schemes.len() && #[trigger] schemes[i]@ == name@ {
            choose|i: int| is_first_scheme(schemes, name@, i)
        } else {
            0
        },
        None => 0,
    }
}

/// The dropdown position of the selected destination: the first device with
/// its id, else 0.
pub open spec fn device_index_of(devices: Seq<Device>, selected: Option<Device>) -> int {
    match selected {
        Some(d) => if has_device_with_id(devices, d.id@) {
            choose|i: int| is_first_with_id(devices, d.id@, i)
        } else {
            0
        },
        None => 0,
    }
}

/// A device's name, followed by its OS version in brackets when it has a
/// non-empty one.
pub open spec fn name_with_os(d: Device) -> Seq<char> {
    if d.os_version is Some && d.os_version->0@.len() > 0 {
        d.name@ + " ("@ + d.os_version->0@ + ")"@
    } else {
        d.name@
    }
}

/// The label of a device in the destination dropdown.
pub open spec fn device_label_text(d: Device) -> Seq<char> {
    match d.device_type {
        DeviceType::PhysicalDevice => name_with_os(d) + " · Physical"@,
        DeviceType::Simulator => name_with_os(d) + " · Simulator"@,
    }
}

/// The first position where a device with id `id` is listed exists when some
/// device with that id is listed.
pub proof fn lemma_first_with_id_exists(devices: Seq<Device>, id: Seq<char>, i: int)
    requires
        0 <= i < devices.len(),
        devices[i].id@ == id,
    ensures
        exists|k: int| is_first_with_id(devices, id, k),
    decreases i,
{
    if exists|j: int| 0 <= j < i && #[trigger] devices[j].id@ == id {
        let j = choose|j: int| 0 <= j < i && #[trigger] devices[j].id@ == id;
        lemma_first_with_id_exists(devices, id, j);
    } else {
        assert(is_first_with_id(devices, id, i));
    }
}

/// The first position of a booted device exists when some device is booted.
pub proof fn lemma_first_booted_exists(devices: Seq<Device>, i: int)
    requires
        0 <= i < devices.len(),
        devices[i].state == DeviceState::Booted,
    ensures
        exists|k: int| is_first_booted(devices, k),
    decreases i,
{
    if exists|j: int| 0 <= j < i && #[trigger] devices[j].state == DeviceState::Booted {
        let j = choose|j: int| 0 <= j < i && #[trigger] devices[j].state == DeviceState::Booted;
        lemma_first_booted_exists(devices, j);
    } else {
        assert(is_first_booted(devices, i));
    }
}

/// The first listed device with a listed id has that id.
pub proof fn lemma_first_with_id_has_id(devices: Seq<Device>, id: Seq<char>)
    requires
        has_device_with_id(devices, id),
    ensures
        first_with_id(devices, id) is Some,
        first_with_id(devices, id)->0.id@ == id,
{
    let i = choose|i: int| 0 <= i < devices.len() && #[trigger] devices[i].id@ == id;
    lemma_first_with_id_exists(devices, id, i);
}

/// The first position of a scheme named `name` exists when some scheme has
/// that name.
pub proof fn lemma_first_scheme_exists(schemes: Seq<String>, name: Seq<char>, i: int)
    requires
        0 <= i < schemes.len(),
        schemes[i]@ == name,
    ensures
        exists|k: int| is_first_scheme(schemes, name, k),
    decreases i,
{
    if exists|j: int| 0 <= j < i && #[trigger] schemes[j]@ == name {
        let j = choose|j: int| 0 <= j < i && #[trigger] schemes[j]@ == name;
        lemma_first_scheme_exists(schemes, name, j);
    } else {
        assert(is_first_scheme(schemes, name, i));
    }
}

/// The first position of a device with id `id` is the one that
/// `first_with_id` picks.
pub proof fn lemma_first_with_id_chosen(devices: Seq<Device>, id: Seq<char>, i: int)
    requires
        is_first_with_id(devices, id, i),
    ensures
        (choose|k: int| is_first_with_id(devices, id, k)) == i,
{
    let k = choose|k: int| is_first_with_id(devices, id, k);
    if k < i {
        assert(devices[k].id@ != id);
    } else if k > i {
        assert(devices[i].id@ != id);
    }
}

/// The first position of a booted device is the one that
/// `default_destination` picks.
pub proof fn lemma_first_booted_chosen(devices: Seq<Device>, i: int)
    requires
        is_first_booted(devices, i),
    ensures
        (choose|k: int| is_first_booted(devices, k)) == i,
{
    let k = choose|k: int| is_first_booted(devices, k);
    if k < i {
        assert(devices[k].state != DeviceState::Booted);
    } else if k > i {
        assert(devices[i].state != DeviceState::Booted);
    }
}

/// The first position of a scheme named `name` is the one that
/// `scheme_index_of` picks.
pub proof fn lemma_first_scheme_chosen(schemes: Seq<String>, name: Seq<char>, i: int)
    requires
        is_first_scheme(schemes, name, i),
    ensures
        (choose|k: int| is_first_scheme(schemes, name, k)) == i,
{
    let k = choose|k: int| is_first_scheme(schemes, name, k);
    if k < i {
        assert(schemes[k]@ != name);
    } else if k > i {
        assert(schemes[i]@ != name);
    }
}

/// Copies an optional string.
fn duplicate_text(text: &Option<String>) -> (r: Option<String>)
    ensures
        r == *text,
{
    match text {
        Some(t) => Some(t.clone()),
        None => None,
    }
}

/// Position of the first scheme named `name`, if any.
fn position_of_scheme(schemes: &Vec<String>, name: &String) -> (r: Option<usize>)
    ensures
        r matches Some(i) ==> is_first_scheme(schemes@, name@, i as int),
        r is None ==> forall|j: int| 0 <= j < schemes@.len() ==> #[trigger] schemes@[j]@ != name@,
{
    let mut i: usize = 0;
    while i < schemes.len()
        invariant
            i <= schemes.len(),
            forall|j: int| 0 <= j < i ==> #[trigger] schemes@[j]@ != name@,
        decreases schemes.len() - i,
    {
        if schemes[i] == *name {
            return Some(i);
        }
        i = i + 1;
    }
    None
}

/// Position of the first device with the id `id`, if any.
fn position_of_device(devices: &Vec<Device>, id: &String) -> (r: Option<usize>)
    ensures
        r matches Some(i) ==> is_first_with_id(devices@, id@, i as int),
        r is None ==> !has_device_with_id(devices@, id@),
{
    let mut i: usize = 0;
    while i < devices.len()
        invariant
            i <= devices.len(),
            forall|j: int| 0 <= j < i ==> #[trigger] devices@[j].id@ != id@,
        decreases devices.len() - i,
    {
        if devices[i].id == *id {
            return Some(i);
        }
        i = i + 1;
    }
    None
}

/// The label of a device in the destination dropdown, such as
/// `iPhone 15 (17.2) · Simulator`.
pub fn device_label(device: &Device) -> (r: String)
    ensures
        r@ == device_label_text(*device),
{
    let name_with_os = match &device.os_version {
        Some(os) => if os.as_str().is_empty() {
            device.name.clone()
        } else {
            device.name.clone().concat(" (").concat(os.as_str()).concat(")")
        },
        None => device.name.clone(),
    };
    match device.device_type {
        DeviceType::PhysicalDevice => name_with_os.concat(" · Physical"),
        DeviceType::Simulator => name_with_os.concat(" · Simulator"),
    }
}

/// The name shown for a project whose path has the file stem `stem`; a path
/// without one shows as `Unknown`.
pub fn project_title(stem: Option<String>) -> (r: String)
    ensures
        r@ == (match stem {
            Some(s) => s@,
            None => "Unknown"@,
        }),
{
    match stem {
        Some(s) => s,
        None => "Unknown".to_owned(),
    }
}

/// A path that splits into components the same way on every platform: `/`
/// separates its components, and it holds no `\`, has no drive prefix (a
/// `:` as its second character) and does not begin with `//`.
pub open spec fn portable_path(path: Seq<char>) -> bool {
    &&& !path.contains('\\')
    &&& !(path.len() >= 2 && path[1] == ':')
    &&& !(path.len() >= 2 && path[0] == '/' && path[1] == '/')
}

/// `part` stands in `text` as a contiguous run of characters.
pub open spec fn is_part_of(part: Seq<char>, text: Seq<char>) -> bool {
    exists|i: int| 0 <= i && i + part.len() <= text.len() && #[trigger] text.subrange(i, i + part.len()) == part
}

/// The characters after the last `/` of `path`; all of it when it holds none.
pub open spec fn final_segment(path: Seq<char>) -> Seq<char>
    decreases path.len(),
{
    if path.len() == 0 {
        path
    } else if path.last() == '/' {
        Seq::empty()
    } else {
        final_segment(path.drop_last()).push(path.last())
    }
}

/// The file name of a portable path, its final component: trailing `/` and
/// `.` components do not count, and there is none when the path ends in `..`
/// or has no such component.
pub open spec fn file_name_of(path: Seq<char>) -> Option<Seq<char>>
    decreases path.len(),
{
    if path.len() == 0 {
        None
    } else if path.last() == '/' {
        file_name_of(path.drop_last())
    } else if final_segment(path) == seq!['.'] {
        file_name_of(path.drop_last())
    } else if final_segment(path) == seq!['.', '.'] {
        None
    } else {
        Some(final_segment(path))
    }
}

/// The part of `name` before its final `.`.
pub open spec fn before_final_dot(name: Seq<char>) -> Seq<char>
    decreases name.len(),
{
    if name.len() == 0 {
        name
    } else if name.last() == '.' {
        name.drop_last()
    } else {
        before_final_dot(name.drop_last())
    }
}

/// The stem of a file name: the whole name when it holds no `.`, or when it
/// begins with `.` and holds no other; otherwise the part before the final
/// `.`.
pub open spec fn stem_of_name(name: Seq<char>) -> Seq<char> {
    if !name.contains('.') || (name[0] == '.' && !name.drop_first().contains('.')) {
        name
    } else {
        before_final_dot(name)
    }
}

/// The file stem of a portable path: the stem of its file name, if it has one.
pub open spec fn file_stem_of(path: Seq<char>) -> Option<Seq<char>> {
    match file_name_of(path) {
        Some(name) => Some(stem_of_name(name)),
        None => None,
    }
}

/// The name the header shows for a project at a portable path: its file
/// stem, else `Unknown`.
pub open spec fn project_name(path: Seq<char>) -> Seq<char> {
    match file_stem_of(path) {
        Some(stem) => stem,
        None => "Unknown"@,
    }
}

/// Calls `std::path::Path::file_stem` on `path` and hands back the stem as a
/// string. As its documentation describes it, a stem is a non-empty part of
/// the path; for a portable path it is the stem of the final component, where
/// repeated `/` and `.` components are ignored and a path ending in `..` has
/// none. Of other paths only the first holds: how they split depends on the
/// target platform.
#[verifier::external_body]
fn path_file_stem(path: &str) -> (r: Option<String>)
    ensures
        r matches Some(stem) ==> stem@.len() > 0 && is_part_of(stem@, path@),
        portable_path(path@) ==> (match r {
            Some(stem) => file_stem_of(path@) == Some(stem@),
            None => file_stem_of(path@) is None,
        }),
{
    std::path::Path::new(path).file_stem().and_then(|stem| stem.to_str()).map(|stem| stem.to_owned())
}

/// Whether a panel may be docked at `position`: on the left or on the right.
pub open spec fn valid_position(position: DockPosition) -> bool {
    position == DockPosition::Left || position == DockPosition::Right
}

/// Whether some device in `devices` has the id `id`.
fn lists_device_with_id(devices: &Vec<Device>, id: &String) -> (r: bool)
    ensures
        r == has_device_with_id(devices@, id@),
{
    position_of_device(devices, id).is_some()
}

/// The first device in `devices` with the id `id`.
fn find_device_with_id(devices: &Vec<Device>, id: &String) -> (r: Option<Device>)
    ensures
        r == first_with_id(devices@, id@),
{
    match position_of_device(devices, id) {
        Some(i) => {
            proof {
                lemma_first_with_id_chosen(devices@, id@, i as int);
            }
            Some(devices[i].duplicate())
        },
        None => None,
    }
}

/// The first booted device in `devices`, else the first device.
fn find_default_destination(devices: &Vec<Device>) -> (r: Option<Device>)
    ensures
        r == default_destination(devices@),
{
    let mut i: usize = 0;
    while i < devices.len()
        invariant
            i <= devices.len(),
            forall|j: int| 0 <= j < i ==> #[trigger] devices@[j].state != DeviceState::Booted,
        decreases devices.len() - i,
    {
        if devices[i].state == DeviceState::Booted {
            proof {
                assert(is_first_booted(devices@, i as int));
                lemma_first_booted_chosen(devices@, i as int);
            }
            return Some(devices[i].duplicate());
        }
        i = i + 1;
    }
    if devices.len() > 0 {
        Some(devices[0].duplicate())
    } else {
        None
    }
}

/// Restoring the saved selection gives back the selected scheme and a
/// destination with the selected destination's id.
pub proof fn lemma_restore_saved_selection(v: PanelView)
    requires
        selection_listed(v),
    ensures
        saved_selection(v).selected_scheme == v.selected_scheme,
        restored_device(v, saved_selection(v)) is Some <==> v.selected_device is Some,
        v.selected_device is Some ==> restored_device(v, saved_selection(v))->0.id@ == v.selected_device->0.id@,
{
    if v.selected_device is Some {
        lemma_first_with_id_has_id(v.devices, v.selected_device->0.id@);
    }
}

/// After a refresh a destination is selected exactly when some device is
/// listed, and the selected destination has the id of a listed device.
pub proof fn lemma_refreshed_selection_listed(selected: Option<Device>, devices: Seq<Device>)
    ensures
        refreshed_selection(selected, devices) is Some <==> devices.len() > 0,
        refreshed_selection(selected, devices) is Some ==> has_device_with_id(devices, refreshed_selection(selected, devices)->0.id@),
{
    if has_booted_device(devices) {
        let i = choose|i: int| 0 <= i < devices.len() && #[trigger] devices[i].state == DeviceState::Booted;
        lemma_first_booted_exists(devices, i);
    }
}

/// The scheme dropdown shows a selected scheme at a position holding a
/// scheme of the same name.
pub proof fn lemma_scheme_index_names_selection(schemes: Seq<String>, i: int)
    requires
        0 <= i < schemes.len(),
    ensures
        0 <= scheme_index_of(schemes, Some(schemes[i])) <= i,
        schemes[scheme_index_of(schemes, Some(schemes[i]))]@ == schemes[i]@,
{
    lemma_first_scheme_exists(schemes, schemes[i]@, i);
}

/// The destination dropdown shows a selected device at a position holding a
/// device with the same id.
pub proof fn lemma_device_index_names_selection(devices: Seq<Device>, i: int)
    requires
        0 <= i < devices.len(),
    ensures
        0 <= device_index_of(devices, Some(devices[i])) <= i,
        devices[device_index_of(devices, Some(devices[i]))].id@ == devices[i].id@,
{
    lemma_first_with_id_exists(devices, devices[i].id@, i);
}

/// A pipeline starts exactly when a project was found and a scheme is
/// selected, and then it builds the selected scheme, in the debug
/// configuration, on the selected destination, without cleaning first.
pub proof fn lemma_pipeline_builds_selection(v: PanelView)
    ensures
        pipeline_options_of(v) is Some <==> (v.xcode_project is Some && v.selected_scheme is Some),
        pipeline_options_of(v) matches Some(options) ==> {
            &&& options.scheme == v.selected_scheme->0
            &&& options.configuration == BuildConfiguration::Debug
            &&& options.destination == v.selected_device
            &&& !options.clean
            &&& options.derived_data_path is None
        },
{
}

/// The destination dropdown marks the first listed device that has the
/// selected device's id, and the first entry when none has it; the mark
/// depends on the id alone.
pub proof fn lemma_device_index_by_id(devices: Seq<Device>, d: Device, e: Device)
    ensures
        has_device_with_id(devices, d.id@) ==> is_first_with_id(devices, d.id@, device_index_of(devices, Some(d))),
        !has_device_with_id(devices, d.id@) ==> device_index_of(devices, Some(d)) == 0,
        device_index_of(devices, None) == 0,
        d.id@ == e.id@ ==> device_index_of(devices, Some(d)) == device_index_of(devices, Some(e)),
{
    if has_device_with_id(devices, d.id@) {
        let i = choose|i: int| 0 <= i < devices.len() && #[trigger] devices[i].id@ == d.id@;
        lemma_first_with_id_exists(devices, d.id@, i);
    }
}

/// After a refresh: a selected device whose id is still listed stays selected
/// as it was; otherwise the selection is what it would be with nothing
/// selected, which is the first booted device, else the first device, else
/// nothing.
pub proof fn lemma_refresh_selection_rule(d: Device, devices: Seq<Device>)
    ensures
        has_device_with_id(devices, d.id@) ==> refreshed_selection(Some(d), devices) == Some(d),
        !has_device_with_id(devices, d.id@) ==> refreshed_selection(Some(d), devices) == refreshed_selection(None, devices),
        has_booted_device(devices) ==> exists|k: int| is_first_booted(devices, k)
            && refreshed_selection(None, devices) == Some(devices[k]),
        !has_booted_device(devices) && devices.len() > 0 ==> refreshed_selection(None, devices) == Some(devices[0]),
        devices.len() == 0 ==> refreshed_selection(None, devices) is None,
{
    if has_booted_device(devices) {
        let i = choose|i: int| 0 <= i < devices.len() && #[trigger] devices[i].state == DeviceState::Booted;
        lemma_first_booted_exists(devices, i);
        let k = choose|k: int| is_first_booted(devices, k);
        assert(is_first_booted(devices, k) && refreshed_selection(None, devices) == Some(devices[k]));
    }
}

/// Restoring a saved device id selects the first listed device with that id,
/// whatever was selected before, and selects nothing when no listed device
/// has it; without a saved id the selection stays.
pub proof fn lemma_restore_selects_saved_device(v: PanelView, selection: PanelSelection)
    ensures
        selection.selected_device_id matches Some(id) ==> {
            &&& has_device_with_id(v.devices, id@) ==> exists|k: int| is_first_with_id(v.devices, id@, k)
                && restored_device(v, selection) == Some(v.devices[k])
            &&& !has_device_with_id(v.devices, id@) ==> restored_device(v, selection) is None
        },
        selection.selected_device_id is None ==> restored_device(v, selection) == v.selected_device,
{
    if let Some(id) = selection.selected_device_id {
        if has_device_with_id(v.devices, id@) {
            let i = choose|i: int| 0 <= i < v.devices.len() && #[trigger] v.devices[i].id@ == id@;
            lemma_first_with_id_exists(v.devices, id@, i);
            let k = choose|k: int| is_first_with_id(v.devices, id@, k);
            assert(is_first_with_id(v.devices, id@, k) && restored_device(v, selection) == Some(v.devices[k]));
        }
    }
}

impl NativePlatformsPanel {
    #[verifier::type_invariant]
    spec fn selected_device_is_listed(self) -> bool {
        selection_listed(self@)
    }

    /// A panel with no project, no scheme and no destination, whose device
    /// list is being refreshed.
    pub fn new() -> (p: Self)
        ensures
            p@.xcode_project is None,
            p@.schemes.len() == 0,
            p@.selected_scheme is None,
            p@.devices.len() == 0,
            p@.selected_device is None,
            p@.loading_devices,
            selection_listed(p@),
    {
        NativePlatformsPanel {
            xcode_project: None,
            schemes: Vec::new(),
            selected_scheme: None,
            devices: Vec::new(),
            selected_device: None,
            loading_devices: true,
        }
    }

    /// Marks the device list as being refreshed.
    pub fn begin_device_refresh(&mut self)
        ensures
            final(self)@.loading_devices,
            final(self)@.xcode_project == old(self)@.xcode_project,
            final(self)@.schemes == old(self)@.schemes,
            final(self)@.selected_scheme == old(self)@.selected_scheme,
            final(self)@.devices == old(self)@.devices,
            final(self)@.selected_device == old(self)@.selected_device,
            selection_listed(final(self)@),
    {
        proof {
            use_type_invariant(&*self);
        }
        self.loading_devices = true;
        proof {
            use_type_invariant(&*self);
        }
    }

    /// Takes the refreshed device list, the physical devices followed by the
    /// simulators (`None` when they could not be listed), ends the refresh and
    /// keeps the selected destination while it is still listed; otherwise the
    /// first booted device, else the first device, is selected.
    pub fn finish_device_refresh(&mut self, physical: Vec<Device>, simulators: Option<Vec<Device>>)
        ensures
            final(self)@.devices == merged_devices(physical@, simulators),
            !final(self)@.loading_devices,
            final(self)@.selected_device == refreshed_selection(old(self)@.selected_device, final(self)@.devices),
            final(self)@.xcode_project == old(self)@.xcode_project,
            final(self)@.schemes == old(self)@.schemes,
            final(self)@.selected_scheme == old(self)@.selected_scheme,
            selection_listed(final(self)@),
    {
        proof {
            use_type_invariant(&*self);
        }
        let mut devices = physical;
        match simulators {
            Some(mut listed) => devices.append(&mut listed),
            None => {},
        }
        let kept = match &self.selected_device {
            Some(selected) => if lists_device_with_id(&devices, &selected.id) {
                Some(selected.duplicate())
            } else {
                None
            },
            None => None,
        };
        let selection = match kept {
            Some(device) => Some(device),
            None => find_default_destination(&devices),
        };
        proof {
            if selection is Some {
                let d = selection->0;
                if !has_booted_device(devices@) {
                    if kept is None {
                        assert(devices@[0].id@ == d.id@);
                    }
                } else if kept is None {
                    let i = choose|i: int| 0 <= i < devices@.len() && #[trigger] devices@[i].state == DeviceState::Booted;
                    lemma_first_booted_exists(devices@, i);
                    let k = choose|k: int| is_first_booted(devices@, k);
                    assert(devices@[k].id@ == d.id@);
                }
            }
        }
        self.selected_device = None;
        self.devices = devices;
        self.loading_devices = false;
        self.selected_device = selection;
        proof {
            use_type_invariant(&*self);
        }
    }
}

impl NativePlatformsPanel {
    /// Takes a detected Xcode project and its schemes. The first scheme is
    /// selected when none was selected before.
    pub fn finish_project_detection(&mut self, project: XcodeProject, schemes: Vec<String>)
        ensures
            final(self)@.xcode_project == Some(project),
            final(self)@.schemes == schemes@,
            final(self)@.selected_scheme == (if old(self)@.selected_scheme is None && schemes@.len() > 0 {
                Some(schemes@[0])
            } else {
                old(self)@.selected_scheme
            }),
            final(self)@.devices == old(self)@.devices,
            final(self)@.selected_device == old(self)@.selected_device,
            final(self)@.loading_devices == old(self)@.loading_devices,
            selection_listed(final(self)@),
    {
        proof {
            use_type_invariant(&*self);
        }
        self.xcode_project = Some(project);
        if self.selected_scheme.is_none() && schemes.len() > 0 {
            self.selected_scheme = Some(schemes[0].clone());
        }
        self.schemes = schemes;
        proof {
            use_type_invariant(&*self);
        }
    }

    /// The selection to save: the selected scheme and the id of the selected
    /// destination.
    pub fn selection(&self) -> (r: PanelSelection)
        ensures
            r == saved_selection(self@),
    {
        let selected_device_id = match &self.selected_device {
            Some(device) => Some(device.id.clone()),
            None => None,
        };
        PanelSelection { selected_scheme: duplicate_text(&self.selected_scheme), selected_device_id }
    }

    /// Restores a saved selection: the scheme as saved and, when a device id
    /// was saved, the first listed device with that id, or none if no listed
    /// device has it.
    pub fn restore_selection(&mut self, selection: PanelSelection)
        ensures
            final(self)@.selected_scheme == selection.selected_scheme,
            final(self)@.selected_device == restored_device(old(self)@, selection),
            final(self)@.xcode_project == old(self)@.xcode_project,
            final(self)@.schemes == old(self)@.schemes,
            final(self)@.devices == old(self)@.devices,
            final(self)@.loading_devices == old(self)@.loading_devices,
            selection_listed(final(self)@),
    {
        proof {
            use_type_invariant(&*self);
        }
        self.selected_scheme = selection.selected_scheme;
        match selection.selected_device_id {
            Some(id) => {
                let found = find_device_with_id(&self.devices, &id);
                proof {
                    if has_device_with_id(self.devices@, id@) {
                        lemma_first_with_id_has_id(self.devices@, id@);
                    }
                }
                self.selected_device = found;
            },
            None => {},
        }
        proof {
            use_type_invariant(&*self);
        }
    }

    /// The options to start a build or run pipeline with, or `None` when no
    /// Xcode project was found or no scheme is selected.
    pub fn pipeline_options(&self) -> (r: Option<BuildOptions>)
        ensures
            r == pipeline_options_of(self@),
    {
        if self.xcode_project.is_none() {
            return None;
        }
        match &self.selected_scheme {
            Some(scheme) => {
                let destination = match &self.selected_device {
                    Some(device) => Some(device.duplicate()),
                    None => None,
                };
                Some(BuildOptions {
                    scheme: scheme.clone(),
                    configuration: BuildConfiguration::Debug,
                    destination,
                    clean: false,
                    derived_data_path: None,
                })
            },
            None => None,
        }
    }

    /// Selects the scheme at `index` of the scheme dropdown. Returns whether
    /// there is such a scheme; without one nothing changes.
    pub fn select_scheme(&mut self, index: usize) -> (r: bool)
        ensures
            r == (index < old(self)@.schemes.len()),
            r ==> final(self)@.selected_scheme == Some(old(self)@.schemes[index as int]),
            !r ==> final(self)@.selected_scheme == old(self)@.selected_scheme,
            final(self)@.xcode_project == old(self)@.xcode_project,
            final(self)@.schemes == old(self)@.schemes,
            final(self)@.devices == old(self)@.devices,
            final(self)@.selected_device == old(self)@.selected_device,
            final(self)@.loading_devices == old(self)@.loading_devices,
            selection_listed(final(self)@),
    {
        proof {
            use_type_invariant(&*self);
        }
        if index >= self.schemes.len() {
            return false;
        }
        let scheme = self.schemes[index].clone();
        self.selected_scheme = Some(scheme);
        proof {
            use_type_invariant(&*self);
        }
        true
    }

    /// Selects the destination at `index` of the destination dropdown.
    /// Returns whether there is such a device; without one nothing changes.
    pub fn select_device(&mut self, index: usize) -> (r: bool)
        ensures
            r == (index < old(self)@.devices.len()),
            r ==> final(self)@.selected_device == Some(old(self)@.devices[index as int]),
            !r ==> final(self)@.selected_device == old(self)@.selected_device,
            final(self)@.xcode_project == old(self)@.xcode_project,
            final(self)@.schemes == old(self)@.schemes,
            final(self)@.selected_scheme == old(self)@.selected_scheme,
            final(self)@.devices == old(self)@.devices,
            final(self)@.loading_devices == old(self)@.loading_devices,
            selection_listed(final(self)@),
    {
        proof {
            use_type_invariant(&*self);
        }
        if index >= self.devices.len() {
            return false;
        }
        let device = self.devices[index].duplicate();
        assert(self.devices@[index as int].id@ == device.id@);
        self.selected_device = Some(device);
        proof {
            use_type_invariant(&*self);
        }
        true
    }

    /// Position of the selected scheme in the scheme dropdown: the first
    /// scheme of that name, else 0.
    pub fn scheme_selected_index(&self) -> (r: usize)
        ensures
            r as int == scheme_index_of(self@.schemes, self@.selected_scheme),
    {
        match &self.selected_scheme {
            Some(name) => match position_of_scheme(&self.schemes, name) {
                Some(i) => {
                    proof {
                        lemma_first_scheme_chosen(self.schemes@, name@, i as int);
                    }
                    i
                },
                None => 0,
            },
            None => 0,
        }
    }

    /// Position of the selected destination in the destination dropdown: the
    /// first device with its id, else 0.
    pub fn device_selected_index(&self) -> (r: usize)
        ensures
            r as int == device_index_of(self@.devices, self@.selected_device),
    {
        match &self.selected_device {
            Some(selected) => match position_of_device(&self.devices, &selected.id) {
                Some(i) => {
                    proof {
                        lemma_first_with_id_chosen(self.devices@, selected.id@, i as int);
                    }
                    i
                },
                None => 0,
            },
            None => 0,
        }
    }

    /// The labels of the destination dropdown, one per device, in order.
    pub fn device_labels(&self) -> (r: Vec<String>)
        ensures
            r@.len() == self@.devices.len(),
            forall|i: int| 0 <= i < r@.len() ==> #[trigger] r@[i]@ == device_label_text(self@.devices[i]),
    {
        let mut labels: Vec<String> = Vec::new();
        let mut i: usize = 0;
        while i < self.devices.len()
            invariant
                i <= self.devices@.len(),
                labels@.len() == i,
                forall|j: int| 0 <= j < i ==> #[trigger] labels@[j]@ == device_label_text(self.devices@[j]),
            decreases self.devices.len() - i,
        {
            labels.push(device_label(&self.devices[i]));
            i = i + 1;
        }
        labels
    }

    /// What the destination section shows: the progress bar while loading,
    /// else the dropdown when there are devices, else a note.
    pub fn devices_section(&self) -> (r: DevicesSection)
        ensures
            r == (if self@.loading_devices {
                DevicesSection::Loading
            } else if self@.devices.len() > 0 {
                DevicesSection::Devices
            } else {
                DevicesSection::NoDevices
            }),
    {
        if self.loading_devices {
            DevicesSection::Loading
        } else if self.devices.len() > 0 {
            DevicesSection::Devices
        } else {
            DevicesSection::NoDevices
        }
    }

    /// The footer's controls, given whether a pipeline runs and whether an
    /// app was launched: build and run need a project and a scheme and no
    /// running pipeline; the launched app can be terminated when no pipeline
    /// runs.
    pub fn footer_controls(&self, pipeline_active: bool, app_launched: bool) -> (r: FooterControls)
        ensures
            r.building == pipeline_active,
            r.can_build == (self@.xcode_project is Some && self@.selected_scheme is Some && !pipeline_active),
            r.can_terminate == (app_launched && !pipeline_active),
    {
        let has_project = self.xcode_project.is_some();
        let has_scheme = self.selected_scheme.is_some();
        FooterControls {
            building: pipeline_active,
            can_build: has_project && has_scheme && !pipeline_active,
            can_terminate: app_launched && !pipeline_active,
        }
    }

    /// The project header: the project's file stem (or `Unknown`) over
    /// `Xcode Project`, or `No Project` over a hint to open a folder.
    pub fn project_header(&self) -> (r: ProjectHeader)
        ensures
            self@.xcode_project is None ==> r.name@ == "No Project"@
                && r.subtitle@ == "Open a folder with an Xcode project"@,
            self@.xcode_project matches Some(p) ==> {
                &&& r.subtitle@ == "Xcode Project"@
                &&& portable_path(p.path@) ==> r.name@ == project_name(p.path@)
                &&& r.name@ == "Unknown"@ || (r.name@.len() > 0 && is_part_of(r.name@, p.path@))
            },
    {
        match &self.xcode_project {
            Some(project) => {
                let stem = path_file_stem(project.path.as_str());
                ProjectHeader { name: project_title(stem), subtitle: "Xcode Project".to_owned() }
            },
            None => ProjectHeader {
                name: "No Project".to_owned(),
                subtitle: "Open a folder with an Xcode project".to_owned(),
            },
        }
    }

    /// The dock position the panel opens at.
    pub fn position(&self) -> (r: DockPosition)
        ensures
            r == DockPosition::Left,
    {
        DockPosition::Left
    }

    /// Whether the panel may be docked at `position`.
    pub fn position_is_valid(&self, position: DockPosition) -> (r: bool)
        ensures
            r == valid_position(position),
    {
        match position {
            DockPosition::Left | DockPosition::Right => true,
            DockPosition::Bottom => false,
        }
    }

    /// The panel's priority among the dock's panels.
    pub fn activation_priority(&self) -> (r: u32)
        ensures
            r == 3,
    {
        3
    }

    /// The detected Xcode project.
    pub fn xcode_project(&self) -> (r: &Option<XcodeProject>)
        ensures
            *r == self@.xcode_project,
    {
        &self.xcode_project
    }

    /// The schemes of the detected project.
    pub fn schemes(&self) -> (r: &Vec<String>)
        ensures
            r@ == self@.schemes,
    {
        &self.schemes
    }

    /// The selected scheme.
    pub fn selected_scheme(&self) -> (r: &Option<String>)
        ensures
            *r == self@.selected_scheme,
    {
        &self.selected_scheme
    }

    /// The listed run destinations.
    pub fn devices(&self) -> (r: &Vec<Device>)
        ensures
            r@ == self@.devices,
    {
        &self.devices
    }

    /// The selected run destination.
    pub fn selected_device(&self) -> (r: &Option<Device>)
        ensures
            *r == self@.selected_device,
    {
        &self.selected_device
    }

    /// Whether the device list is being refreshed.
    pub fn loading_devices(&self) -> (r: bool)
        ensures
            r == self@.loading_devices,
    {
        self.loading_devices
    }
}

} // verus!
