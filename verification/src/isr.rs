use crate::controller::InterruptIndex;
use crate::decoder::{decoder_prefix, ScancodeDecoder};
use crate::display::Command;
use crate::keys::Key;
use crate::menu::{menu_commands, menu_step, MenuState, REBOOT_INDEX};
use vstd::prelude::*;

verus! {

/// No command of the sequence acknowledges the interrupt controller.
pub open spec fn ack_free(cs: Seq<Command>) -> bool {
    forall|i: int| 0 <= i < cs.len() ==> !((#[trigger] cs[i]) is Acknowledge)
}

/// Some command of the sequence is the reboot pulse, after which nothing runs.
pub open spec fn contains_reboot(cs: Seq<Command>) -> bool {
    exists|i: int| 0 <= i < cs.len() && (#[trigger] cs[i]) == Command::Reboot
}

/// The key confirms the reboot entry while browsing: the one dispatch that
/// never returns, so the handler never reaches its acknowledgement.
pub open spec fn triggers_reboot(s: MenuState, k: Key) -> bool {
    k == Key::Char('\n') && !s.awaiting_acknowledgement && s.selected_index == REBOOT_INDEX
}

/// Everything one keyboard interrupt performs once the key is decoded: the
/// menu output, then the acknowledgement of the keyboard vector — except when
/// the reboot action was dispatched, which never returns.
pub open spec fn keyboard_isr_commands(s: MenuState, k: Key) -> Seq<Command> {
    if triggers_reboot(s, k) {
        menu_commands(s, k)
    } else {
        menu_commands(s, k).push(
            Command::Acknowledge { vector: InterruptIndex::Keyboard.spec_vector() },
        )
    }
}

/// The menu's own output never acknowledges the controller, and dispatches the
/// reboot pulse exactly on the reboot confirmation, as its last command.
pub proof fn lemma_menu_commands_ack_free(s: MenuState, k: Key)
    ensures
        ack_free(menu_commands(s, k)),
        contains_reboot(menu_commands(s, k)) <==> triggers_reboot(s, k),
        triggers_reboot(s, k) ==> menu_commands(s, k).len() >= 1 && menu_commands(s, k).last()
            == Command::Reboot,
{
    let cs = menu_commands(s, k);
    match k {
        Key::Char(c) => {
            if triggers_reboot(s, k) {
                assert(cs =~= seq![Command::ClearScreen, Command::Reboot]);
                assert(cs[1] == Command::Reboot);
            } else {
                assert forall|i: int| 0 <= i < cs.len() implies !((#[trigger] cs[i])
                    is Acknowledge) && cs[i] != Command::Reboot by {}
            }
        },
        Key::ArrowUp | Key::ArrowDown => {
            assert forall|i: int| 0 <= i < cs.len() implies !((#[trigger] cs[i]) is Acknowledge)
                && cs[i] != Command::Reboot by {
                assert(cs[i] is WriteCell);
            }
        },
        Key::OtherRaw => {
            assert(cs =~= Seq::<Command>::empty());
        },
    }
}

/// Per delivered keyboard interrupt, the controller is acknowledged exactly
/// once, as the last thing the handler does and for the keyboard vector,
/// whatever the decode outcome — unless the reboot action was confirmed, in
/// which case the handler never returns and nothing is acknowledged.
pub proof fn lemma_keyboard_interrupt_acknowledged_once(s: MenuState, k: Key)
    ensures
        !triggers_reboot(s, k) ==> ({
            let cs = keyboard_isr_commands(s, k);
            &&& cs.len() >= 1
            &&& cs.last() == (Command::Acknowledge {
                vector: InterruptIndex::Keyboard.spec_vector(),
            })
            &&& ack_free(cs.drop_last())
        }),
        triggers_reboot(s, k) ==> ({
            let cs = keyboard_isr_commands(s, k);
            &&& ack_free(cs)
            &&& cs.len() >= 1
            &&& cs.last() == Command::Reboot
        }),
{
    lemma_menu_commands_ack_free(s, k);
    if !triggers_reboot(s, k) {
        let mc = menu_commands(s, k);
        let cs = keyboard_isr_commands(s, k);
        assert(cs.drop_last() =~= mc);
    }
}

/// One keyboard interrupt: decode the byte in hand, dispatch the completed key
/// to the menu when one completed, and acknowledge the controller last — the
/// acknowledge is skipped only on the reboot dispatch, which never returns
/// control to the handler. A byte in the middle of a multi-byte sequence
/// dispatches nothing and only acknowledges. The documented scancode rows the
/// menu depends on are pinned exactly: the extended prefix, the extended arrow
/// make and break codes, and the return-key make code.
pub fn keyboard_isr_step(
    menu: &mut MenuState,
    decoder: &mut ScancodeDecoder,
    scancode: u8,
) -> (cmds: Vec<Command>)
    requires
        old(menu).wf(),
    ensures
        final(menu).wf(),
        exists|k: Key|
            {
                &&& *final(menu) == menu_step(*old(menu), k)
                &&& cmds@ == #[trigger] keyboard_isr_commands(*old(menu), k)
            },
        contains_reboot(cmds@) ==> ack_free(cmds@) && cmds@.last() == Command::Reboot,
        !contains_reboot(cmds@) ==> cmds@.len() >= 1 && cmds@.last() == (Command::Acknowledge {
            vector: InterruptIndex::Keyboard.spec_vector(),
        }) && ack_free(cmds@.drop_last()),
        decoder_prefix(*old(decoder)) == Seq::<u8>::empty() && scancode == 0xE0 ==> *final(menu)
            == *old(menu) && decoder_prefix(*final(decoder)) == seq![0xE0u8] && cmds@ == seq![
            (Command::Acknowledge { vector: InterruptIndex::Keyboard.spec_vector() }),
        ],
        decoder_prefix(*old(decoder)) == seq![0xE0u8] ==> decoder_prefix(*final(decoder))
            == Seq::<u8>::empty(),
        decoder_prefix(*old(decoder)) == Seq::<u8>::empty() && scancode == 0x1C ==> *final(menu)
            == menu_step(*old(menu), Key::Char('\n')) && cmds@ == keyboard_isr_commands(
            *old(menu),
            Key::Char('\n'),
        ) && decoder_prefix(*final(decoder)) == Seq::<u8>::empty(),
        decoder_prefix(*old(decoder)) == seq![0xE0u8] && scancode == 0x48 ==> *final(menu)
            == menu_step(*old(menu), Key::ArrowUp) && cmds@ == keyboard_isr_commands(
            *old(menu),
            Key::ArrowUp,
        ),
        decoder_prefix(*old(decoder)) == seq![0xE0u8] && scancode == 0x50 ==> *final(menu)
            == menu_step(*old(menu), Key::ArrowDown) && cmds@ == keyboard_isr_commands(
            *old(menu),
            Key::ArrowDown,
        ),
        decoder_prefix(*old(decoder)) == seq![0xE0u8] && (scancode == 0xC8 || scancode == 0xD0)
            ==> *final(menu) == *old(menu) && cmds@ == keyboard_isr_commands(
            *old(menu),
            Key::OtherRaw,
        ),
{
    let decoded = decoder.decode(scancode);
    let mut reboot_confirmed = false;
    let mut cmds: Vec<Command> = Vec::new();
    match decoded {
        Some(k) => {
            reboot_confirmed = !menu.awaiting_acknowledgement && menu.selected_index
                == REBOOT_INDEX && (match k {
                Key::Char(c) => c == '\n',
                _ => false,
            });
            cmds = menu.handle_key(k);
        },
        None => {},
    }
    if !reboot_confirmed {
        cmds.push(Command::Acknowledge { vector: InterruptIndex::Keyboard.as_u8() });
    }
    proof {
        let s = *old(menu);
        let kw: Key = match decoded {
            Some(k) => k,
            None => Key::OtherRaw,
        };
        lemma_menu_commands_ack_free(s, kw);
        if decoded is None {
            assert(cmds@ =~= keyboard_isr_commands(s, kw));
            assert(cmds@ =~= seq![
                (Command::Acknowledge { vector: InterruptIndex::Keyboard.spec_vector() }),
            ]);
        }
        assert(cmds@ == keyboard_isr_commands(s, kw));
        assert(*menu == menu_step(s, kw));
        if triggers_reboot(s, kw) {
            assert(contains_reboot(cmds@));
        } else {
            let mc = menu_commands(s, kw);
            assert forall|i: int| 0 <= i < cmds@.len() implies (#[trigger] cmds@[i])
                != Command::Reboot by {
                if i < mc.len() {
                    assert(cmds@[i] == mc[i]);
                    assert(!contains_reboot(mc));
                }
            }
            assert(!contains_reboot(cmds@));
            assert(cmds@.drop_last() =~= mc);
        }
    }
    cmds
}

/// One timer interrupt: acknowledge the timer vector, exactly once, and do
/// nothing else — no scheduler exists to hook.
pub fn timer_isr_step() -> (cmds: Vec<Command>)
    ensures
        cmds@ == seq![(Command::Acknowledge { vector: InterruptIndex::Timer.spec_vector() })],
{
    let mut cmds: Vec<Command> = Vec::new();
    cmds.push(Command::Acknowledge { vector: InterruptIndex::Timer.as_u8() });
    proof {
        assert(cmds@ =~= seq![
            (Command::Acknowledge { vector: InterruptIndex::Timer.spec_vector() }),
        ]);
    }
    cmds
}

} // verus!
