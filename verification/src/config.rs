//! The settings of the bar that the tray lives in, with the values that
//! hold where a setting is left out.

use vstd::prelude::*;
use vstd::string::*;
use crate::text::{strip_prefix, strip_prefix_spec};

verus! {

/// Height of the bar in pixels where none is set.
pub fn default_height() -> (r: u32)
    ensures
        r == 30,
{
    30
}

/// Screen edge of the bar where none is set.
pub fn default_position() -> (r: String)
    ensures
        r@ == "top"@,
{
    "top".to_owned()
}

/// Shell layer of the bar where none is set.
pub fn default_layer() -> (r: String)
    ensures
        r@ == "top"@,
{
    "top".to_owned()
}

/// Space between neighbouring modules where none is set.
pub fn default_spacing() -> (r: i32)
    ensures
        r == 10,
{
    10
}

/// Seconds between two runs of a custom module where none is set.
pub fn default_interval() -> (r: u64)
    ensures
        r == 1,
{
    1
}

/// Click command where none is set: the shell's no-op.
pub fn default_action() -> (r: String)
    ensures
        r@ == ":"@,
{
    ":".to_owned()
}

/// Modules of the left section where none are set.
pub fn default_modules_left() -> (r: Vec<String>)
    ensures
        r.deep_view() == seq!["mpris"@],
{
    let mut r: Vec<String> = Vec::new();
    r.push("mpris".to_owned());
    assert(r.deep_view() =~= seq!["mpris"@]);
    r
}

/// Modules of the centre section where none are set.
pub fn default_modules_center() -> (r: Vec<String>)
    ensures
        r.deep_view() == seq!["hyprland/workspaces"@],
{
    let mut r: Vec<String> = Vec::new();
    r.push("hyprland/workspaces".to_owned());
    assert(r.deep_view() =~= seq!["hyprland/workspaces"@]);
    r
}

/// Modules of the right section where none are set.
pub fn default_modules_right() -> (r: Vec<String>)
    ensures
        r.deep_view() == seq!["network"@, "audio"@, "battery"@, "clock"@],
{
    let mut r: Vec<String> = Vec::new();
    r.push("network".to_owned());
    r.push("audio".to_owned());
    r.push("battery".to_owned());
    r.push("clock".to_owned());
    assert(r.deep_view() =~= seq!["network"@, "audio"@, "battery"@, "clock"@]);
    r
}

/// Geometry and placement of the bar.
#[derive(Debug, Clone, PartialEq, Eq)]
pub struct BarConfig {
    pub height: u32,
    pub position: String,
    pub layer: String,
    pub spacing: i32,
}

impl Default for BarConfig {
    fn default() -> (r: Self)
        ensures
            r.height == 30,
            r.position@ == "top"@,
            r.layer@ == "top"@,
            r.spacing == 10,
    {
        BarConfig {
            height: default_height(),
            position: default_position(),
            layer: default_layer(),
            spacing: default_spacing(),
        }
    }
}

/// A module that shows what a command prints.
#[derive(Debug, Clone, PartialEq, Eq)]
pub struct CustomModule {
    pub command: String,
    pub action: String,
    pub interval: u64,
    pub format: Option<String>,
    pub tooltip: Option<bool>,
}

impl CustomModule {
    /// The module that runs `command`, with every other setting left out.
    pub fn new(command: String) -> (r: Self)
        ensures
            r.command == command,
            r.action@ == ":"@,
            r.interval == 1,
            r.format is None,
            r.tooltip is None,
    {
        CustomModule {
            command,
            action: default_action(),
            interval: default_interval(),
            format: None,
            tooltip: None,
        }
    }
}

/// A container that lays out other modules.
#[derive(Debug, Clone, PartialEq, Eq)]
pub struct BoxConfig {
    pub modules: Vec<String>,
    pub action: String,
    pub spacing: i32,
    pub orientation: Option<String>,
}

impl Default for BoxConfig {
    fn default() -> (r: Self)
        ensures
            r.modules@.len() == 0,
            r.action@ == ":"@,
            r.spacing == 10,
            r.orientation is None,
    {
        BoxConfig {
            modules: Vec::new(),
            action: default_action(),
            spacing: default_spacing(),
            orientation: None,
        }
    }
}

/// Layout of the tray inside the bar.
#[derive(Debug, Clone, Copy, PartialEq, Eq)]
pub struct TrayConfig {
    pub spacing: i32,
    pub icon_size: i32,
}

impl Default for TrayConfig {
    fn default() -> (r: Self)
        ensures
            r.spacing == 5,
            r.icon_size == 16,
    {
        TrayConfig { spacing: 5, icon_size: 16 }
    }
}

/// The shell layer that a bar is put on.
#[derive(Debug, Clone, Copy, PartialEq, Eq)]
pub enum Layer {
    Background,
    Bottom,
    Top,
    Overlay,
}

/// The layer that a `layer` setting names; any unknown name means the top
/// layer.
pub open spec fn layer_spec(name: Seq<char>) -> Layer {
    if name == "background"@ {
        Layer::Background
    } else if name == "bottom"@ {
        Layer::Bottom
    } else if name == "overlay"@ {
        Layer::Overlay
    } else {
        Layer::Top
    }
}

/// Reads a `layer` setting.
pub fn layer_of(name: &str) -> (layer: Layer)
    ensures
        layer == layer_spec(name@),
{
    if name.eq("background") {
        Layer::Background
    } else if name.eq("bottom") {
        Layer::Bottom
    } else if name.eq("overlay") {
        Layer::Overlay
    } else {
        Layer::Top
    }
}

/// The screen edge that a bar is anchored to.
#[derive(Debug, Clone, Copy, PartialEq, Eq)]
pub enum Edge {
    Top,
    Bottom,
}

/// Reads a `position` setting: `bottom` is the bottom edge, anything else
/// the top edge.
pub fn edge_of(position: &str) -> (edge: Edge)
    ensures
        edge == if position@ == "bottom"@ {
            Edge::Bottom
        } else {
            Edge::Top
        },
{
    if position.eq("bottom") {
        Edge::Bottom
    } else {
        Edge::Top
    }
}

/// The direction in which a container lays out its modules.
#[derive(Debug, Clone, Copy, PartialEq, Eq)]
pub enum Orientation {
    Horizontal,
    Vertical,
}

/// Reads an `orientation` setting: `vertical` is vertical, anything else,
/// also a setting that is left out, horizontal.
pub fn orientation_of(setting: Option<&str>) -> (orientation: Orientation)
    ensures
        orientation == match setting {
            Some(name) => if name@ == "vertical"@ {
                Orientation::Vertical
            } else {
                Orientation::Horizontal
            },
            None => Orientation::Horizontal,
        },
{
    match setting {
        Some(name) => if name.eq("vertical") {
            Orientation::Vertical
        } else {
            Orientation::Horizontal
        },
        None => Orientation::Horizontal,
    }
}

/// What a module name in a section of the bar asks for.
#[derive(Debug, PartialEq, Eq)]
pub enum ModuleKind {
    Clock,
    Tray,
    Workspaces,
    Mpris,
    Network,
    Battery,
    Audio,
    /// `custom/<name>`: the custom module of that name.
    Custom(String),
    /// `box/<name>`: the box of that name.
    Box(String),
    /// `revealer/<name>`: the revealer of that name.
    Revealer(String),
    /// No module is called so.
    Unknown,
}

/// A `ModuleKind` over character sequences.
pub enum ModuleKindView {
    Clock,
    Tray,
    Workspaces,
    Mpris,
    Network,
    Battery,
    Audio,
    Custom(Seq<char>),
    Box(Seq<char>),
    Revealer(Seq<char>),
    Unknown,
}

impl View for ModuleKind {
    type V = ModuleKindView;

    open spec fn view(&self) -> ModuleKindView {
        match self {
            ModuleKind::Clock => ModuleKindView::Clock,
            ModuleKind::Tray => ModuleKindView::Tray,
            ModuleKind::Workspaces => ModuleKindView::Workspaces,
            ModuleKind::Mpris => ModuleKindView::Mpris,
            ModuleKind::Network => ModuleKindView::Network,
            ModuleKind::Battery => ModuleKindView::Battery,
            ModuleKind::Audio => ModuleKindView::Audio,
            ModuleKind::Custom(n) => ModuleKindView::Custom(n@),
            ModuleKind::Box(n) => ModuleKindView::Box(n@),
            ModuleKind::Revealer(n) => ModuleKindView::Revealer(n@),
            ModuleKind::Unknown => ModuleKindView::Unknown,
        }
    }
}

/// The module that a name asks for. The fixed names are tried first, then
/// the prefixes `custom/`, `box/` and `revealer/` in this order.
pub open spec fn module_kind_spec(name: Seq<char>) -> ModuleKindView {
    if name == "clock"@ {
        ModuleKindView::Clock
    } else if name == "tray"@ {
        ModuleKindView::Tray
    } else if name == "hyprland/workspaces"@ {
        ModuleKindView::Workspaces
    } else if name == "mpris"@ {
        ModuleKindView::Mpris
    } else if name == "network"@ {
        ModuleKindView::Network
    } else if name == "battery"@ {
        ModuleKindView::Battery
    } else if name == "audio"@ {
        ModuleKindView::Audio
    } else if strip_prefix_spec(name, "custom/"@) is Some {
        ModuleKindView::Custom(strip_prefix_spec(name, "custom/"@)->0)
    } else if strip_prefix_spec(name, "box/"@) is Some {
        ModuleKindView::Box(strip_prefix_spec(name, "box/"@)->0)
    } else if strip_prefix_spec(name, "revealer/"@) is Some {
        ModuleKindView::Revealer(strip_prefix_spec(name, "revealer/"@)->0)
    } else {
        ModuleKindView::Unknown
    }
}

/// Reads a module name of a section of the bar.
pub fn module_kind(name: &str) -> (kind: ModuleKind)
    ensures
        kind@ == module_kind_spec(name@),
{
    if name.eq("clock") {
        return ModuleKind::Clock;
    }
    if name.eq("tray") {
        return ModuleKind::Tray;
    }
    if name.eq("hyprland/workspaces") {
        return ModuleKind::Workspaces;
    }
    if name.eq("mpris") {
        return ModuleKind::Mpris;
    }
    if name.eq("network") {
        return ModuleKind::Network;
    }
    if name.eq("battery") {
        return ModuleKind::Battery;
    }
    if name.eq("audio") {
        return ModuleKind::Audio;
    }
    match strip_prefix(name, "custom/") {
        Some(n) => {
            return ModuleKind::Custom(n);
        },
        None => {},
    }
    match strip_prefix(name, "box/") {
        Some(n) => {
            return ModuleKind::Box(n);
        },
        None => {},
    }
    match strip_prefix(name, "revealer/") {
        Some(n) => ModuleKind::Revealer(n),
        None => ModuleKind::Unknown,
    }
}

} // verus!
