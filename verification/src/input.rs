//! Keyboard and mouse button state, as seen frame by frame.

use std::collections::HashSet;
use vstd::prelude::*;

verus! {

/// Whether a key or a button went down or came up.
#[derive(Clone, Copy, Debug, PartialEq, Eq, Structural)]
pub enum ElementState {
    Pressed,
    Released,
}

/// The identity of a physical key: a number that the event source gives each key.
#[derive(Clone, Copy, Debug, PartialEq, Eq, Structural)]
pub struct KeyCode(pub u32);

/// A physical key, or a key that the event source could not name.
#[derive(Clone, Copy, Debug, PartialEq, Eq, Structural)]
pub enum PhysicalKey {
    Code(KeyCode),
    Unidentified,
}

/// One keyboard event: which key, whether it went down or up, and whether the
/// press was produced by holding the key down.
#[derive(Clone, Copy, Debug, PartialEq, Eq, Structural)]
pub struct KeyEvent {
    pub physical_key: PhysicalKey,
    pub state: ElementState,
    pub repeat: bool,
}

/// The set of held keys after one event, given the set before it.
pub open spec fn keys_after_event(down: Set<u32>, event: KeyEvent) -> Set<u32> {
    match event.physical_key {
        PhysicalKey::Code(code) => match event.state {
            ElementState::Pressed => if event.repeat { down } else { down.insert(code.0) },
            ElementState::Released => down.remove(code.0),
        },
        PhysicalKey::Unidentified => down,
    }
}

/// A press that is not a repeat holds the key, whatever its code, and leaves
/// every other key as it was.
pub proof fn lemma_press_holds_key(down: Set<u32>, code: KeyCode)
    ensures
        ({
            let after = keys_after_event(
                down,
                KeyEvent { physical_key: PhysicalKey::Code(code), state: ElementState::Pressed, repeat: false },
            );
            &&& after.contains(code.0)
            &&& forall|other: u32| other != code.0 ==> (after.contains(other) <==> down.contains(other))
        }),
{
}

/// A release lifts the key, whether it was down or not, and leaves every other
/// key as it was.
pub proof fn lemma_release_lifts_key(down: Set<u32>, code: KeyCode, repeat: bool)
    ensures
        ({
            let after = keys_after_event(
                down,
                KeyEvent { physical_key: PhysicalKey::Code(code), state: ElementState::Released, repeat },
            );
            &&& !after.contains(code.0)
            &&& forall|other: u32| other != code.0 ==> (after.contains(other) <==> down.contains(other))
        }),
{
}

/// An event of a key that the source could not name changes nothing.
pub proof fn lemma_unidentified_key_ignored(down: Set<u32>, state: ElementState, repeat: bool)
    ensures
        keys_after_event(down, KeyEvent { physical_key: PhysicalKey::Unidentified, state, repeat }) == down,
{
}

/// A press that the event source repeats while a key is held changes nothing.
pub proof fn lemma_repeated_press_ignored(down: Set<u32>, code: KeyCode)
    ensures
        keys_after_event(
            down,
            KeyEvent { physical_key: PhysicalKey::Code(code), state: ElementState::Pressed, repeat: true },
        ) == down,
{
}

/// A key pressed and then released is up, and every other key is as it was.
pub proof fn lemma_press_then_release(down: Set<u32>, code: KeyCode, repeat: bool)
    ensures
        ({
            let pressed = keys_after_event(
                down,
                KeyEvent { physical_key: PhysicalKey::Code(code), state: ElementState::Pressed, repeat },
            );
            keys_after_event(
                pressed,
                KeyEvent { physical_key: PhysicalKey::Code(code), state: ElementState::Released, repeat: false },
            ) == down.remove(code.0)
        }),
{
    let pressed = keys_after_event(
        down,
        KeyEvent { physical_key: PhysicalKey::Code(code), state: ElementState::Pressed, repeat },
    );
    assert(pressed.remove(code.0) =~= down.remove(code.0));
}

/// No key is both just pressed and just released: for any set of keys down now
/// and any set down at the last frame boundary, "down now and not before" and
/// "not down now and down before" never hold together.
pub proof fn lemma_just_pressed_excludes_just_released(down: Set<u32>, down_before: Set<u32>, code: u32)
    ensures
        !((down.contains(code) && !down_before.contains(code)) && (!down.contains(code) && down_before.contains(code))),
{
}

/// Copies a set of codes.
fn copy_code_set(source: &HashSet<u32>) -> (copy: HashSet<u32>)
    ensures
        copy@ == source@,
{
    let mut copy: HashSet<u32> = HashSet::new();
    let ghost mut keys: Seq<u32> = Seq::empty();
    for k in it: source.iter()
        invariant
            it.seq().unref().to_set() == source@,
            keys == it.seq().unref().take(it.index()),
            forall|x: u32| copy@.contains(x) <==> keys.contains(x),
            it.index() == it.seq().len() ==> copy@ == source@,
    {
        copy.insert(*k);
        proof {
            broadcast use vstd::seq_lib::group_seq_properties;
            keys = keys.push(*k);
            assert(keys =~= it.seq().unref().take(it.index() + 1));
            assert(copy@ =~= keys.to_set());
            assert(it.index() + 1 == it.seq().len() ==> keys =~= it.seq().unref());
        }
    }
    copy
}

/// The keys held down now and those held down at the last frame boundary.
pub struct Keyboard {
    current_pressed: HashSet<u32>,
    last_pressed: HashSet<u32>,
}

impl Keyboard {
    /// The codes of the keys held down now.
    pub closed spec fn down(&self) -> Set<u32> {
        self.current_pressed@
    }

    /// The codes of the keys that were held down at the last call of `update`.
    pub closed spec fn down_before(&self) -> Set<u32> {
        self.last_pressed@
    }

    pub fn new() -> (kb: Self)
        ensures
            kb.down() == Set::<u32>::empty(),
            kb.down_before() == Set::<u32>::empty(),
    {
        Keyboard { current_pressed: HashSet::new(), last_pressed: HashSet::new() }
    }

    /// Marks a frame boundary: what is held now becomes what was held before.
    pub fn update(&mut self)
        ensures
            final(self).down() == old(self).down(),
            final(self).down_before() == old(self).down(),
            forall|c: u32| !(final(self).down().contains(c) && !final(self).down_before().contains(c)),
            forall|c: u32| !(!final(self).down().contains(c) && final(self).down_before().contains(c)),
    {
        self.last_pressed = copy_code_set(&self.current_pressed);
    }

    /// Records one key event: a press that is not a repeat puts the key down, a
    /// release lifts it, anything else leaves the keyboard as it was.
    pub fn handle_event(&mut self, event: &KeyEvent)
        ensures
            final(self).down() == keys_after_event(old(self).down(), *event),
            final(self).down_before() == old(self).down_before(),
            forall|c: KeyCode|
                event.physical_key == PhysicalKey::Code(c) && event.state == ElementState::Pressed && !event.repeat
                    ==> final(self).down() == old(self).down().insert(c.0),
            forall|c: KeyCode|
                event.physical_key == PhysicalKey::Code(c) && event.state == ElementState::Released
                    ==> final(self).down() == old(self).down().remove(c.0),
            event.physical_key == PhysicalKey::Unidentified || (event.state == ElementState::Pressed && event.repeat)
                ==> final(self).down() == old(self).down(),
    {
        if let PhysicalKey::Code(code) = event.physical_key {
            match event.state {
                ElementState::Pressed => {
                    if !event.repeat {
                        self.current_pressed.insert(code.0);
                    }
                },
                ElementState::Released => {
                    self.current_pressed.remove(&code.0);
                },
            }
        }
    }

    pub fn is_pressed(&self, code: KeyCode) -> (r: bool)
        ensures
            r == self.down().contains(code.0),
    {
        self.current_pressed.contains(&code.0)
    }

    pub fn is_released(&self, code: KeyCode) -> (r: bool)
        ensures
            r == !self.down().contains(code.0),
    {
        !self.current_pressed.contains(&code.0)
    }

    /// Down now, and up at the last frame boundary.
    pub fn just_pressed(&self, code: KeyCode) -> (r: bool)
        ensures
            r == (self.down().contains(code.0) && !self.down_before().contains(code.0)),
    {
        self.current_pressed.contains(&code.0) && !self.last_pressed.contains(&code.0)
    }

    /// Up now, and down at the last frame boundary.
    pub fn just_released(&self, code: KeyCode) -> (r: bool)
        ensures
            r == (!self.down().contains(code.0) && self.down_before().contains(code.0)),
    {
        !self.current_pressed.contains(&code.0) && self.last_pressed.contains(&code.0)
    }
}

/// A mouse button.
#[derive(Clone, Copy, Debug, PartialEq, Eq, Structural)]
pub enum MouseButton {
    Left,
    Right,
    Middle,
    Back,
    Forward,
    Other(u16),
}

/// The number under which a button is kept: one number per button.
pub open spec fn button_code(button: MouseButton) -> u32 {
    match button {
        MouseButton::Left => 0,
        MouseButton::Right => 1,
        MouseButton::Middle => 2,
        MouseButton::Back => 3,
        MouseButton::Forward => 4,
        MouseButton::Other(n) => (5 + n) as u32,
    }
}

/// Two buttons share a number only if they are the same button.
pub proof fn lemma_button_code_injective(a: MouseButton, b: MouseButton)
    ensures
        button_code(a) == button_code(b) ==> a == b,
{
}

fn code_of_button(button: MouseButton) -> (code: u32)
    ensures
        code == button_code(button),
{
    match button {
        MouseButton::Left => 0,
        MouseButton::Right => 1,
        MouseButton::Middle => 2,
        MouseButton::Back => 3,
        MouseButton::Forward => 4,
        MouseButton::Other(n) => 5 + n as u32,
    }
}

/// The set of held buttons after one button event, given the set before it.
pub open spec fn buttons_after_input(down: Set<MouseButton>, state: ElementState, button: MouseButton) -> Set<MouseButton> {
    match state {
        ElementState::Pressed => down.insert(button),
        ElementState::Released => down.remove(button),
    }
}

/// A press holds the button, whatever button it is, and leaves every other
/// button as it was.
pub proof fn lemma_button_press_holds(down: Set<MouseButton>, button: MouseButton)
    ensures
        buttons_after_input(down, ElementState::Pressed, button).contains(button),
        forall|other: MouseButton|
            other != button ==> (buttons_after_input(down, ElementState::Pressed, button).contains(other)
                <==> down.contains(other)),
{
}

/// A release lifts the button, whether it was down or not, and leaves every
/// other button as it was.
pub proof fn lemma_button_release_lifts(down: Set<MouseButton>, button: MouseButton)
    ensures
        !buttons_after_input(down, ElementState::Released, button).contains(button),
        forall|other: MouseButton|
            other != button ==> (buttons_after_input(down, ElementState::Released, button).contains(other)
                <==> down.contains(other)),
{
}

/// A button pressed and then released is up, and every other button is as it was.
pub proof fn lemma_button_press_then_release(down: Set<MouseButton>, button: MouseButton)
    ensures
        buttons_after_input(buttons_after_input(down, ElementState::Pressed, button), ElementState::Released, button)
            == down.remove(button),
{
    assert(down.insert(button).remove(button) =~= down.remove(button));
}

/// The mouse buttons held down now and those held down at the last frame boundary.
pub struct Mouse {
    current_pressed: HashSet<u32>,
    last_pressed: HashSet<u32>,
}

impl Mouse {
    /// The buttons held down now.
    pub closed spec fn down(&self) -> Set<MouseButton> {
        Set::new(|b: MouseButton| self.current_pressed@.contains(button_code(b)))
    }

    /// The buttons that were held down at the last call of `update`.
    pub closed spec fn down_before(&self) -> Set<MouseButton> {
        Set::new(|b: MouseButton| self.last_pressed@.contains(button_code(b)))
    }

    pub fn new() -> (mouse: Self)
        ensures
            mouse.down() == Set::<MouseButton>::empty(),
            mouse.down_before() == Set::<MouseButton>::empty(),
    {
        let mouse = Mouse { current_pressed: HashSet::new(), last_pressed: HashSet::new() };
        assert(mouse.down() =~= Set::<MouseButton>::empty());
        assert(mouse.down_before() =~= Set::<MouseButton>::empty());
        mouse
    }

    /// Marks a frame boundary: what is held now becomes what was held before.
    pub fn update(&mut self)
        ensures
            final(self).down() == old(self).down(),
            final(self).down_before() == old(self).down(),
            forall|b: MouseButton| !(final(self).down().contains(b) && !final(self).down_before().contains(b)),
            forall|b: MouseButton| !(!final(self).down().contains(b) && final(self).down_before().contains(b)),
    {
        self.last_pressed = copy_code_set(&self.current_pressed);
        assert(self.down_before() =~= old(self).down());
    }

    /// Records that a button went down or came up.
    pub fn handle_mouse_input(&mut self, state: ElementState, button: MouseButton)
        ensures
            final(self).down() == buttons_after_input(old(self).down(), state, button),
            final(self).down_before() == old(self).down_before(),
            state == ElementState::Pressed ==> final(self).down() == old(self).down().insert(button),
            state == ElementState::Released ==> final(self).down() == old(self).down().remove(button),
    {
        let code = code_of_button(button);
        match state {
            ElementState::Pressed => {
                self.current_pressed.insert(code);
            },
            ElementState::Released => {
                self.current_pressed.remove(&code);
            },
        }
        proof {
            assert forall|b: MouseButton| button_code(b) == code implies b == button by {
                lemma_button_code_injective(b, button);
            }
        }
        assert(self.down() =~= buttons_after_input(old(self).down(), state, button));
    }

    pub fn is_pressed(&self, button: MouseButton) -> (r: bool)
        ensures
            r == self.down().contains(button),
    {
        self.current_pressed.contains(&code_of_button(button))
    }

    pub fn is_released(&self, button: MouseButton) -> (r: bool)
        ensures
            r == !self.down().contains(button),
    {
        !self.current_pressed.contains(&code_of_button(button))
    }

    /// Down now, and up at the last frame boundary.
    pub fn just_pressed(&self, button: MouseButton) -> (r: bool)
        ensures
            r == (self.down().contains(button) && !self.down_before().contains(button)),
    {
        let code = code_of_button(button);
        self.current_pressed.contains(&code) && !self.last_pressed.contains(&code)
    }

    /// Up now, and down at the last frame boundary.
    pub fn just_released(&self, button: MouseButton) -> (r: bool)
        ensures
            r == (!self.down().contains(button) && self.down_before().contains(button)),
    {
        let code = code_of_button(button);
        !self.current_pressed.contains(&code) && self.last_pressed.contains(&code)
    }
}

} // verus!
