//! The per-mode status information handed to the interface layer: the
//! current mode, the keybind hints shown for it, and client presentation
//! data passed through unchanged.

use vstd::prelude::*;

use crate::key::InputMode;

verus! {

/// A color of the client's palette.
#[derive(Clone, Copy, Debug, PartialEq, Eq, Structural)]
pub enum PaletteColor {
    Rgb(u8, u8, u8),
    EightBit(u8),
}

/// The color palette the client renders with. Opaque to this core: it is
/// only carried through to the interface layer.
#[derive(Clone, Copy, Debug, PartialEq, Eq, Structural)]
pub struct Palette {
    pub fg: PaletteColor,
    pub bg: PaletteColor,
    pub black: PaletteColor,
    pub red: PaletteColor,
    pub green: PaletteColor,
    pub yellow: PaletteColor,
    pub blue: PaletteColor,
    pub magenta: PaletteColor,
    pub cyan: PaletteColor,
    pub white: PaletteColor,
    pub orange: PaletteColor,
}

/// What the client's plugins are capable of; carried through unchanged.
#[derive(Clone, Copy, Debug, PartialEq, Eq, Structural)]
pub struct PluginCapabilities {
    pub arrow_fonts: bool,
}

/// The current input mode together with its keybind hints (as pairs of
/// strings), the palette, the capabilities and the session name.
#[derive(Clone, Debug)]
pub struct ModeInfo {
    pub mode: InputMode,
    pub keybinds: Vec<(String, String)>,
    pub palette: Palette,
    pub capabilities: PluginCapabilities,
    pub session_name: Option<String>,
}

/// The keybind hints shown for each mode, as (key, description) pairs.
pub open spec fn spec_mode_hints(mode: InputMode) -> Seq<(Seq<char>, Seq<char>)> {
    match mode {
        InputMode::Normal => Seq::empty(),
        InputMode::Locked => Seq::empty(),
        InputMode::Resize => seq![("←↓↑→"@, "Resize"@)],
        InputMode::Pane => seq![
            ("←↓↑→"@, "Move focus"@),
            ("p"@, "Next"@),
            ("n"@, "New"@),
            ("d"@, "Down split"@),
            ("r"@, "Right split"@),
            ("x"@, "Close"@),
            ("f"@, "Fullscreen"@),
            ("z"@, "Frames"@),
        ],
        InputMode::Tab => seq![
            ("←↓↑→"@, "Move focus"@),
            ("n"@, "New"@),
            ("x"@, "Close"@),
            ("r"@, "Rename"@),
            ("s"@, "Sync"@),
            ("Tab"@, "Toggle"@),
        ],
        InputMode::Scroll => seq![("↓↑"@, "Scroll"@), ("PgUp/PgDn"@, "Scroll Page"@)],
        InputMode::RenameTab => seq![("Enter"@, "when done"@)],
        InputMode::Session => seq![("d"@, "Detach"@)],
    }
}

/// The hint pairs a built hint list stands for.
pub open spec fn hint_views(hints: Seq<(String, String)>) -> Seq<(Seq<char>, Seq<char>)> {
    hints.map_values(|pair: (String, String)| (pair.0@, pair.1@))
}

fn hint(key: &str, description: &str) -> (pair: (String, String))
    ensures
        pair.0@ == key@,
        pair.1@ == description@,
{
    (key.to_owned(), description.to_owned())
}

/// Creates a [`ModeInfo`] indicating the given mode and its keybind hints.
/// The session name comes from the caller: reading the environment is the
/// adapter's business, not this core's.
pub fn get_mode_info(
    mode: InputMode,
    palette: Palette,
    capabilities: PluginCapabilities,
    session_name: Option<String>,
) -> (info: ModeInfo)
    ensures
        info.mode == mode,
        info.palette == palette,
        info.capabilities == capabilities,
        info.session_name == session_name,
        hint_views(info.keybinds@) == spec_mode_hints(mode),
{
    let mut keybinds: Vec<(String, String)> = Vec::new();
    match mode {
        InputMode::Normal => {},
        InputMode::Locked => {},
        InputMode::Resize => {
            keybinds.push(hint("←↓↑→", "Resize"));
        },
        InputMode::Pane => {
            keybinds.push(hint("←↓↑→", "Move focus"));
            keybinds.push(hint("p", "Next"));
            keybinds.push(hint("n", "New"));
            keybinds.push(hint("d", "Down split"));
            keybinds.push(hint("r", "Right split"));
            keybinds.push(hint("x", "Close"));
            keybinds.push(hint("f", "Fullscreen"));
            keybinds.push(hint("z", "Frames"));
        },
        InputMode::Tab => {
            keybinds.push(hint("←↓↑→", "Move focus"));
            keybinds.push(hint("n", "New"));
            keybinds.push(hint("x", "Close"));
            keybinds.push(hint("r", "Rename"));
            keybinds.push(hint("s", "Sync"));
            keybinds.push(hint("Tab", "Toggle"));
        },
        InputMode::Scroll => {
            keybinds.push(hint("↓↑", "Scroll"));
            keybinds.push(hint("PgUp/PgDn", "Scroll Page"));
        },
        InputMode::RenameTab => {
            keybinds.push(hint("Enter", "when done"));
        },
        InputMode::Session => {
            keybinds.push(hint("d", "Detach"));
        },
    }
    proof {
        assert(hint_views(keybinds@) =~= spec_mode_hints(mode));
    }
    ModeInfo { mode, keybinds, palette, capabilities, session_name }
}

} // verus!
