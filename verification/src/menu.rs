use crate::display::Command;
use crate::keys::Key;
use vstd::prelude::*;

verus! {

/// First menu row; also the index of the processor-report entry.
pub const MENU_FIRST: u8 = 20;
/// Last menu row. The range is closed and maps one-to-one to menu actions.
pub const MENU_LAST: u8 = 23;
/// Menu entry that shows the processor identification report.
pub const CPU_REPORT_INDEX: u8 = 20;
/// Menu entry that renders the embedded image in graphics mode.
pub const IMAGE_INDEX: u8 = 21;
/// Menu entry that reboots the machine.
pub const REBOOT_INDEX: u8 = 22;
/// Menu entry that requests power-off.
pub const POWER_OFF_INDEX: u8 = 23;
/// Column of the selector marker.
pub const SELECTOR_COLUMN: u8 = 1;
/// Glyph drawn next to the selected row: ASCII asterisk.
pub const SELECTOR_GLYPH: u8 = 42;
/// Glyph drawn next to every other row: ASCII space.
pub const SELECTOR_BLANK: u8 = 32;

/// The mutable state shared between the main path and the keyboard interrupt
/// handler: the selected menu entry, whether an action's output is on screen
/// awaiting a confirm key, and whether that action left the display in
/// graphics mode. The surrounding program keeps one instance behind a
/// non-blocking mutual-exclusion primitive safe to take from interrupt
/// context.
#[derive(Clone, Copy, Debug, PartialEq, Eq, Structural)]
pub struct MenuState {
    pub selected_index: u8,
    pub awaiting_acknowledgement: bool,
    pub display_mode_dirty: bool,
}

impl MenuState {
    /// The selection never leaves the menu range, and the display can only be
    /// dirty while a result is awaiting acknowledgement.
    pub open spec fn wf(self) -> bool {
        &&& MENU_FIRST <= self.selected_index <= MENU_LAST
        &&& (self.display_mode_dirty ==> self.awaiting_acknowledgement)
    }

    /// Browsing: no result on screen, arrow keys move the selection.
    pub open spec fn browsing(self) -> bool {
        !self.awaiting_acknowledgement
    }

    /// A textual result is on screen, to be dismissed with a confirm key.
    pub open spec fn showing_result(self) -> bool {
        self.awaiting_acknowledgement && !self.display_mode_dirty
    }

    /// A graphics-mode result is on screen; dismissing it must also restore
    /// text mode.
    pub open spec fn showing_video_result(self) -> bool {
        self.awaiting_acknowledgement && self.display_mode_dirty
    }

    pub fn new() -> (s: Self)
        ensures
            s == (MenuState {
                selected_index: MENU_FIRST,
                awaiting_acknowledgement: false,
                display_mode_dirty: false,
            }),
            s.wf(),
            s.browsing(),
    {
        MenuState {
            selected_index: MENU_FIRST,
            awaiting_acknowledgement: false,
            display_mode_dirty: false,
        }
    }
}

/// One step up, saturating at the first entry.
pub open spec fn clamped_up(i: u8) -> u8 {
    if i > MENU_FIRST {
        (i - 1) as u8
    } else {
        i
    }
}

/// One step down, saturating at the last entry.
pub open spec fn clamped_down(i: u8) -> u8 {
    if i < MENU_LAST {
        (i + 1) as u8
    } else {
        i
    }
}

/// The in-place redraw of the selector column after an arrow key: one cell per
/// menu row, the selected row gets the marker glyph, every other row a blank.
pub open spec fn marker_writes(selected: u8) -> Seq<Command> {
    Seq::new((MENU_LAST - MENU_FIRST + 1) as nat, |i: int| Command::WriteCell {
        column: SELECTOR_COLUMN,
        row: (MENU_FIRST + i) as u8,
        glyph: if MENU_FIRST + i == selected {
            SELECTOR_GLYPH
        } else {
            SELECTOR_BLANK
        },
    })
}

/// The output of the action at `selected` when it is confirmed while browsing.
pub open spec fn confirm_dispatch_commands(selected: u8) -> Seq<Command> {
    if selected == CPU_REPORT_INDEX {
        seq![Command::ShowCpuReport]
    } else if selected == IMAGE_INDEX {
        seq![Command::SetGraphicsMode, Command::BlitImage]
    } else if selected == REBOOT_INDEX {
        seq![Command::Reboot]
    } else if selected == POWER_OFF_INDEX {
        seq![Command::PowerOff]
    } else {
        seq![]
    }
}

/// The menu state after one decoded key.
///
/// A confirm key (newline) while browsing dispatches the selected action: the
/// report and image actions start awaiting acknowledgement (the image action
/// also marks the display mode dirty); reboot never returns, and power-off is
/// best effort, so neither changes the state. A confirm key while a textual
/// result is shown returns to browsing; while a graphics result is shown it
/// additionally resets the selection to the first entry. Arrow keys saturate
/// at the range boundaries. Every other key leaves the state unchanged.
pub open spec fn menu_step(s: MenuState, k: Key) -> MenuState {
    match k {
        Key::Char(c) => {
            if c == '\n' {
                if !s.awaiting_acknowledgement {
                    if s.selected_index == CPU_REPORT_INDEX {
                        MenuState {
                            selected_index: s.selected_index,
                            awaiting_acknowledgement: true,
                            display_mode_dirty: false,
                        }
                    } else if s.selected_index == IMAGE_INDEX {
                        MenuState {
                            selected_index: s.selected_index,
                            awaiting_acknowledgement: true,
                            display_mode_dirty: true,
                        }
                    } else {
                        s
                    }
                } else if !s.display_mode_dirty {
                    MenuState {
                        selected_index: s.selected_index,
                        awaiting_acknowledgement: false,
                        display_mode_dirty: false,
                    }
                } else {
                    MenuState {
                        selected_index: MENU_FIRST,
                        awaiting_acknowledgement: false,
                        display_mode_dirty: false,
                    }
                }
            } else {
                s
            }
        },
        Key::ArrowUp => MenuState {
            selected_index: clamped_up(s.selected_index),
            awaiting_acknowledgement: s.awaiting_acknowledgement,
            display_mode_dirty: s.display_mode_dirty,
        },
        Key::ArrowDown => MenuState {
            selected_index: clamped_down(s.selected_index),
            awaiting_acknowledgement: s.awaiting_acknowledgement,
            display_mode_dirty: s.display_mode_dirty,
        },
        Key::OtherRaw => s,
    }
}

/// The display output of one decoded key.
///
/// The confirm key first clears the screen, then draws the selected action's
/// output while browsing, redraws the menu when dismissing a textual result,
/// and restores text mode, parks the cursor, clears and redraws when
/// dismissing a graphics result. Arrow keys redraw the selector column in
/// place. Every other key — characters included — is ignored and produces no
/// output.
pub open spec fn menu_commands(s: MenuState, k: Key) -> Seq<Command> {
    match k {
        Key::Char(c) => {
            if c == '\n' {
                if !s.awaiting_acknowledgement {
                    seq![Command::ClearScreen] + confirm_dispatch_commands(s.selected_index)
                } else if !s.display_mode_dirty {
                    seq![Command::ClearScreen, Command::DrawMenu]
                } else {
                    seq![
                        Command::ClearScreen,
                        Command::SetTextMode,
                        Command::DisableCursor,
                        Command::ClearScreen,
                        Command::DrawMenu,
                    ]
                }
            } else {
                seq![]
            }
        },
        Key::ArrowUp => marker_writes(clamped_up(s.selected_index)),
        Key::ArrowDown => marker_writes(clamped_down(s.selected_index)),
        Key::OtherRaw => seq![],
    }
}

impl MenuState {
    /// Consume one decoded key: advance the state by `menu_step` and return
    /// the display output of `menu_commands`, in order.
    pub fn handle_key(&mut self, k: Key) -> (cmds: Vec<Command>)
        requires
            old(self).wf(),
        ensures
            *final(self) == menu_step(*old(self), k),
            final(self).wf(),
            cmds@ == menu_commands(*old(self), k),
    {
        let mut cmds: Vec<Command> = Vec::new();
        match k {
            Key::Char(c) => {
                if c == '\n' && !self.awaiting_acknowledgement {
                    cmds.push(Command::ClearScreen);
                    if self.selected_index == CPU_REPORT_INDEX {
                        cmds.push(Command::ShowCpuReport);
                        self.awaiting_acknowledgement = true;
                    } else if self.selected_index == IMAGE_INDEX {
                        cmds.push(Command::SetGraphicsMode);
                        cmds.push(Command::BlitImage);
                        self.awaiting_acknowledgement = true;
                        self.display_mode_dirty = true;
                    } else if self.selected_index == REBOOT_INDEX {
                        cmds.push(Command::Reboot);
                    } else {
                        cmds.push(Command::PowerOff);
                    }
                } else if c == '\n' && !self.display_mode_dirty {
                    cmds.push(Command::ClearScreen);
                    cmds.push(Command::DrawMenu);
                    self.awaiting_acknowledgement = false;
                } else if c == '\n' {
                    cmds.push(Command::ClearScreen);
                    cmds.push(Command::SetTextMode);
                    cmds.push(Command::DisableCursor);
                    cmds.push(Command::ClearScreen);
                    cmds.push(Command::DrawMenu);
                    self.selected_index = MENU_FIRST;
                    self.awaiting_acknowledgement = false;
                    self.display_mode_dirty = false;
                }
                proof {
                    assert(cmds@ =~= menu_commands(*old(self), k));
                }
            },
            Key::ArrowUp => {
                if self.selected_index > MENU_FIRST {
                    self.selected_index = self.selected_index - 1;
                }
                let writes = selector_redraw(self.selected_index);
                cmds = writes;
            },
            Key::ArrowDown => {
                if self.selected_index < MENU_LAST {
                    self.selected_index = self.selected_index + 1;
                }
                let writes = selector_redraw(self.selected_index);
                cmds = writes;
            },
            Key::OtherRaw => {},
        }
        cmds
    }
}

/// The menu state after a whole run of decoded keys, first key first.
pub open spec fn menu_run(s: MenuState, ks: Seq<Key>) -> MenuState
    decreases ks.len(),
{
    if ks.len() == 0 {
        s
    } else {
        menu_run(menu_step(s, ks[0]), ks.drop_first())
    }
}

/// Law: one step from a well-formed state is well-formed; in particular the
/// selection never leaves the closed menu range.
pub proof fn lemma_menu_step_preserves_wf(s: MenuState, k: Key)
    requires
        s.wf(),
    ensures
        menu_step(s, k).wf(),
{
}

/// Law: after any run of decoded keys — arrow keys included — the selection is
/// still within the closed menu range.
pub proof fn lemma_menu_run_preserves_wf(s: MenuState, ks: Seq<Key>)
    requires
        s.wf(),
    ensures
        menu_run(s, ks).wf(),
    decreases ks.len(),
{
    if ks.len() > 0 {
        lemma_menu_step_preserves_wf(s, ks[0]);
        lemma_menu_run_preserves_wf(menu_step(s, ks[0]), ks.drop_first());
    }
}

/// Law: an upward step at the first entry and a downward step at the last are
/// no-ops, not wraps; anywhere else an arrow step moves the selection by one
/// and changes nothing else.
pub proof fn lemma_arrow_steps_clamp(s: MenuState)
    requires
        s.wf(),
    ensures
        s.selected_index == MENU_FIRST ==> menu_step(s, Key::ArrowUp) == s,
        s.selected_index == MENU_LAST ==> menu_step(s, Key::ArrowDown) == s,
        s.selected_index > MENU_FIRST ==> menu_step(s, Key::ArrowUp) == (MenuState {
            selected_index: (s.selected_index - 1) as u8,
            ..s
        }),
        s.selected_index < MENU_LAST ==> menu_step(s, Key::ArrowDown) == (MenuState {
            selected_index: (s.selected_index + 1) as u8,
            ..s
        }),
{
}

/// The command writes the selector marker glyph into a cell.
pub open spec fn is_marker_cell(c: Command) -> bool {
    match c {
        Command::WriteCell { glyph, .. } => glyph == SELECTOR_GLYPH,
        _ => false,
    }
}

/// The row a cell write lands on (meaningful only for `WriteCell`).
pub open spec fn cell_row(c: Command) -> u8 {
    match c {
        Command::WriteCell { row, .. } => row,
        _ => 0,
    }
}

/// Law: after an arrow key the redraw touches every menu row once, in order,
/// and puts the marker glyph on exactly one of them: the row of the new
/// selection. Every other row gets the blank glyph.
pub proof fn lemma_selector_marker_unique(s: MenuState, k: Key)
    requires
        s.wf(),
        k == Key::ArrowUp || k == Key::ArrowDown,
    ensures
        ({
            let cmds = menu_commands(s, k);
            let sel = menu_step(s, k).selected_index;
            &&& cmds.len() == MENU_LAST - MENU_FIRST + 1
            &&& forall|i: int|
                0 <= i < cmds.len() ==> cell_row(#[trigger] cmds[i]) == MENU_FIRST + i
            &&& forall|i: int|
                0 <= i < cmds.len() ==> (is_marker_cell(#[trigger] cmds[i]) <==> MENU_FIRST + i
                    == sel)
            &&& exists|i: int| 0 <= i < cmds.len() && is_marker_cell(#[trigger] cmds[i])
        }),
{
    let cmds = menu_commands(s, k);
    let sel = menu_step(s, k).selected_index;
    assert(MENU_FIRST <= sel <= MENU_LAST);
    assert(0 <= sel - MENU_FIRST < cmds.len() && MENU_FIRST + (sel - MENU_FIRST) == sel);
    assert(is_marker_cell(cmds[sel - MENU_FIRST]));
}

/// Law: confirming an action while browsing and then confirming again to
/// dismiss its result returns the menu to browsing with the selection
/// unchanged — except after the graphics-mode action, whose dismissal resets
/// the selection to the first entry. (The reboot and power-off entries leave
/// no result to dismiss: the first confirm does not change the state.)
pub proof fn lemma_confirm_round_trip(s: MenuState)
    requires
        s.wf(),
        s.browsing(),
    ensures
        ({
            let s1 = menu_step(s, Key::Char('\n'));
            let s2 = menu_step(s1, Key::Char('\n'));
            s1.awaiting_acknowledgement ==> {
                &&& s2.browsing()
                &&& !s2.display_mode_dirty
                &&& s2.selected_index == if s1.display_mode_dirty {
                    MENU_FIRST
                } else {
                    s.selected_index
                }
            }
        }),
{
}

/// Redraw the selector column for the given selection: exactly the cells of
/// `marker_writes`.
pub fn selector_redraw(selected: u8) -> (cmds: Vec<Command>)
    ensures
        cmds@ == marker_writes(selected),
{
    let mut cmds: Vec<Command> = Vec::new();
    let mut i: u8 = 0;
    while i < MENU_LAST - MENU_FIRST + 1
        invariant
            i <= MENU_LAST - MENU_FIRST + 1,
            cmds@ =~= marker_writes(selected).subrange(0, i as int),
        decreases MENU_LAST - MENU_FIRST + 1 - i,
    {
        let row = MENU_FIRST + i;
        let glyph = if row == selected {
            SELECTOR_GLYPH
        } else {
            SELECTOR_BLANK
        };
        cmds.push(Command::WriteCell { column: SELECTOR_COLUMN, row, glyph });
        i = i + 1;
        proof {
            assert(cmds@ =~= marker_writes(selected).subrange(0, i as int));
        }
    }
    proof {
        assert(cmds@ =~= marker_writes(selected));
    }
    cmds
}

} // verus!
