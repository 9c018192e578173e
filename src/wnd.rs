use vstd::prelude::*;

verus! {

pub const WM_KEYDOWN: u32 = 0x0100;

pub const WM_KEYUP: u32 = 0x0101;

pub const WM_SYSKEYDOWN: u32 = 0x0104;

pub const WM_SYSKEYUP: u32 = 0x0105;

/// The value a window-message callback returns to swallow a message.
pub const SWALLOWED: u32 = 0;

/// The four key-transition message codes; the trampoline leaves all others alone.
pub open spec fn is_key_transition(msg: u32) -> bool {
    msg == WM_KEYDOWN || msg == WM_KEYUP || msg == WM_SYSKEYDOWN || msg == WM_SYSKEYUP
}

/// Bit 30 of the packed long parameter: the key was down before this message.
pub open spec fn previous_state_bit(l_param: isize) -> bool {
    l_param & 0x4000_0000isize != 0
}

/// The arguments a safe window-message callback receives.
#[derive(Clone, Copy, Debug, PartialEq, Eq, Structural)]
pub struct KeyTransition {
    /// The virtual-key code, taken from the word parameter.
    pub key: usize,
    pub key_down: bool,
    pub prev_key_down: bool,
}

/// Reads a key transition out of a window message, or `None` when the message is
/// no key transition.
pub fn key_transition(u_msg: u32, w_param: usize, l_param: isize) -> (r: Option<KeyTransition>)
    ensures
        r is Some <==> is_key_transition(u_msg),
        r is Some ==> r->0.key == w_param,
        r is Some ==> (r->0.key_down <==> u_msg % 2 == 0),
        r is Some ==> (r->0.prev_key_down <==> previous_state_bit(l_param)),
{
    if u_msg == WM_KEYDOWN || u_msg == WM_KEYUP || u_msg == WM_SYSKEYDOWN || u_msg == WM_SYSKEYUP {
        let key_down = u_msg & 1 == 0;
        let prev_key_down = (l_param >> 30isize) & 1 == 1;
        assert((u_msg & 1 == 0) <==> (u_msg % 2 == 0)) by (bit_vector);
        assert((((l_param >> 30isize) & 1) == 1) <==> (l_param & 0x4000_0000isize != 0))
            by (bit_vector);
        Some(KeyTransition { key: w_param, key_down, prev_key_down })
    } else {
        None
    }
}

/// What the trampoline returns once the safe callback has answered `keep`: the
/// message itself when kept, the swallow sentinel otherwise.
pub open spec fn filtered(u_msg: u32, keep: bool) -> u32 {
    if keep {
        u_msg
    } else {
        SWALLOWED
    }
}

pub fn filter_result(u_msg: u32, keep: bool) -> (r: u32)
    ensures
        r == filtered(u_msg, keep),
        !keep ==> r == 0,
{
    if keep {
        u_msg
    } else {
        SWALLOWED
    }
}

/// The body of the window-message trampoline (both the filtered and the unfiltered
/// slot): a key transition goes to `callback` as (key, key_down, prev_key_down),
/// and is swallowed when the callback answers `false`; every other message passes
/// through unchanged, without a call.
pub fn wnd_filter<F: Fn(usize, bool, bool) -> bool>(
    callback: &F,
    u_msg: u32,
    w_param: usize,
    l_param: isize,
) -> (r: u32)
    requires
        forall|k: usize, d: bool, p: bool| callback.requires((k, d, p)),
    ensures
        !is_key_transition(u_msg) ==> r == u_msg,
        is_key_transition(u_msg) ==> exists|keep: bool|
            {
                &&& callback.ensures(
                    (w_param, u_msg % 2 == 0, previous_state_bit(l_param)),
                    keep,
                )
                &&& r == filtered(u_msg, keep)
            },
{
    match key_transition(u_msg, w_param, l_param) {
        None => u_msg,
        Some(t) => {
            let keep = callback(t.key, t.key_down, t.prev_key_down);
            filter_result(u_msg, keep)
        },
    }
}

/// On a key transition, a callback that answers `false` makes the trampoline
/// return the swallow sentinel, zero, which is never the message code itself.
pub proof fn lemma_refusal_swallows(u_msg: u32)
    requires
        is_key_transition(u_msg),
    ensures
        filtered(u_msg, false) == 0,
        filtered(u_msg, false) != u_msg,
{
}

} // verus!
