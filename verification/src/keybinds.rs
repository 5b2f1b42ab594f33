use vstd::prelude::*;

verus! {

/// Which key an event is about.
#[derive(Debug, Clone, Copy, PartialEq, Eq)]
pub enum KeyName {
    Char(char),
    Esc,
    /// Any other key.
    Other,
}

/// Whether a key went down, repeated or went up.
#[derive(Debug, Clone, Copy, PartialEq, Eq)]
pub enum KeyAction {
    Press,
    Repeat,
    Release,
}

/// A key event as the terminal reports it: the key, the modifier bits
/// (shift, control, ...), the action and the keyboard state bits.
#[derive(Debug)]
pub struct KeyPress {
    pub code: KeyName,
    pub modifiers: u8,
    pub kind: KeyAction,
    pub state: u8,
}

/// A terminal event.
#[derive(Debug)]
pub enum TermEvent {
    Key(KeyPress),
    /// Focus, mouse, paste or resize.
    Other,
}

/// The keys the interface answers to.
#[derive(Debug, Clone, Copy, PartialEq, Eq)]
pub enum KeyBinding {
    W,
    A,
    S,
    D,
    Esc,
}

/// A key went down with no modifier and no keyboard state: the event that
/// the bare key code stands for.
pub open spec fn plain_press(k: KeyPress) -> bool {
    &&& k.modifiers == 0
    &&& k.kind is Press
    &&& k.state == 0
}

/// The binding an event triggers, if any: a plain press of `w`, `a`, `s`,
/// `d` (lower case) or Escape.
pub open spec fn binding_of(ev: TermEvent) -> Option<KeyBinding> {
    match ev {
        TermEvent::Key(k) => if !plain_press(k) {
            None
        } else {
            match k.code {
                KeyName::Char(c) => if c == 'w' {
                    Some(KeyBinding::W)
                } else if c == 'a' {
                    Some(KeyBinding::A)
                } else if c == 's' {
                    Some(KeyBinding::S)
                } else if c == 'd' {
                    Some(KeyBinding::D)
                } else {
                    None
                },
                KeyName::Esc => Some(KeyBinding::Esc),
                KeyName::Other => None,
            }
        },
        TermEvent::Other => None,
    }
}

/// Finds the binding an event triggers.
pub fn bound_key(ev: &TermEvent) -> (b: Option<KeyBinding>)
    ensures
        b == binding_of(*ev),
        ev matches TermEvent::Key(k) && (k.modifiers != 0 || k.state != 0 || !(k.kind is Press))
            ==> b is None,
        ev is Other ==> b is None,
{
    match ev {
        TermEvent::Key(k) => {
            let plain = k.modifiers == 0 && k.state == 0 && match k.kind {
                KeyAction::Press => true,
                _ => false,
            };
            if !plain {
                return None;
            }
            match k.code {
                KeyName::Char(c) => {
                    if c == 'w' {
                        Some(KeyBinding::W)
                    } else if c == 'a' {
                        Some(KeyBinding::A)
                    } else if c == 's' {
                        Some(KeyBinding::S)
                    } else if c == 'd' {
                        Some(KeyBinding::D)
                    } else {
                        None
                    }
                },
                KeyName::Esc => Some(KeyBinding::Esc),
                KeyName::Other => None,
            }
        },
        TermEvent::Other => None,
    }
}

/// A key held with any modifier (shift, control, alt, ...), with any
/// keyboard state, or that is not going down, triggers no binding; a plain
/// press of `w`, `a`, `s`, `d` or Escape triggers its own binding, and no
/// other key does.
pub proof fn law_only_plain_presses_bind(k: KeyPress)
    ensures
        k.modifiers != 0 ==> binding_of(TermEvent::Key(k)) is None,
        k.state != 0 ==> binding_of(TermEvent::Key(k)) is None,
        !(k.kind is Press) ==> binding_of(TermEvent::Key(k)) is None,
        (k.modifiers == 0 && k.state == 0 && k.kind is Press) ==> {
            let b = binding_of(TermEvent::Key(k));
            &&& k.code == KeyName::Char('w') ==> b == Some(KeyBinding::W)
            &&& k.code == KeyName::Char('a') ==> b == Some(KeyBinding::A)
            &&& k.code == KeyName::Char('s') ==> b == Some(KeyBinding::S)
            &&& k.code == KeyName::Char('d') ==> b == Some(KeyBinding::D)
            &&& k.code == KeyName::Esc ==> b == Some(KeyBinding::Esc)
            &&& k.code == KeyName::Other ==> b is None
            &&& (k.code matches KeyName::Char(c) && c != 'w' && c != 'a' && c != 's' && c != 'd')
                ==> b is None
        },
{
}

} // verus!
