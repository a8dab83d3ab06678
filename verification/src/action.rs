//! Actions that a mapping performs, the commands that carry them to the
//! executor, and the operations on the injector that each command stands for.

use vstd::prelude::*;

verus! {

/// A key of the keyboard.
#[derive(Clone, Copy, Debug, PartialEq, Eq, Structural)]
pub enum Key {
    Control,
    Shift,
    Alt,
    Meta,
    Space,
    Backspace,
    Tab,
    Delete,
    PageUp,
    PageDown,
    Home,
    End,
    CapsLock,
    PrintScr,
    Scroll,
    Pause,
    /// A function key, numbered from 1 to 24.
    F(u8),
    /// The key that types this character.
    Unicode(char),
}

/// A button of the mouse.
#[derive(Clone, Copy, Debug, PartialEq, Eq, Structural)]
pub enum Button {
    Left,
    Middle,
    Right,
    Back,
    Forward,
}

/// What is done to a key or a mouse button.
#[derive(Clone, Copy, Debug, PartialEq, Eq)]
pub enum Direction {
    Press,
    Release,
    Click,
}

/// The one thing that an action does besides holding its modifiers.
#[derive(Clone, Copy, Debug, PartialEq, Eq, Structural)]
pub enum PrimaryAction {
    /// Type a key.
    KeyPress { key: Key },
    /// Click a mouse button.
    MouseClick { button: Button },
    /// Turn the mouse wheel by `amount` notches, downwards if positive.
    MouseWheel { amount: i32 },
    /// Show or hide the on-screen keyboard.
    VirtualKeyboard { virtual_keyboard: Option<bool> },
    /// Do nothing.
    NoAction { none: Option<bool> },
}

/// Modifier keys and one primary action.
#[derive(Debug)]
pub struct Action {
    /// The keys held down round the primary action, in the order given.
    pub modifiers: Vec<Key>,
    pub primary: PrimaryAction,
}

/// An action as a mathematical value.
pub struct ActionView {
    pub modifiers: Seq<Key>,
    pub primary: PrimaryAction,
}

impl View for Action {
    type V = ActionView;

    open spec fn view(&self) -> ActionView {
        ActionView { modifiers: self.modifiers@, primary: self.primary }
    }
}

/// One operation on the injector of keyboard and mouse input.
#[derive(Clone, Copy, Debug, PartialEq, Eq)]
pub enum InjectorOp {
    Key { key: Key, direction: Direction },
    Button { button: Button, direction: Direction },
    Scroll { amount: i32 },
    ToggleVirtualKeyboard,
}

/// The operations that press each of `keys`, first to last.
pub open spec fn presses(keys: Seq<Key>) -> Seq<InjectorOp> {
    Seq::new(keys.len(), |i: int| InjectorOp::Key { key: keys[i], direction: Direction::Press })
}

/// The operations that release each of `keys`, last to first.
pub open spec fn releases(keys: Seq<Key>) -> Seq<InjectorOp> {
    Seq::new(
        keys.len(),
        |i: int| InjectorOp::Key { key: keys[keys.len() - 1 - i], direction: Direction::Release },
    )
}

/// Something that can be carried out on the injector, as a whole or in its
/// press and release halves.
pub trait Executable {
    /// The operations of the whole.
    spec fn execute_spec(&self) -> Seq<InjectorOp>;

    /// The operations of the press half.
    spec fn press_spec(&self) -> Seq<InjectorOp>;

    /// The operations of the release half.
    spec fn release_spec(&self) -> Seq<InjectorOp>;

    /// Lists the operations of the whole, in order.
    fn execute(&self) -> (ops: Vec<InjectorOp>)
        ensures
            ops@ == self.execute_spec(),
    ;

    /// Lists the operations of the press half, in order.
    fn execute_press(&self) -> (ops: Vec<InjectorOp>)
        ensures
            ops@ == self.press_spec(),
    ;

    /// Lists the operations of the release half, in order.
    fn execute_release(&self) -> (ops: Vec<InjectorOp>)
        ensures
            ops@ == self.release_spec(),
    ;
}

impl Executable for PrimaryAction {
    open spec fn execute_spec(&self) -> Seq<InjectorOp> {
        match *self {
            PrimaryAction::KeyPress { key } => seq![
                InjectorOp::Key { key, direction: Direction::Click },
            ],
            PrimaryAction::MouseClick { button } => seq![
                InjectorOp::Button { button, direction: Direction::Click },
            ],
            PrimaryAction::MouseWheel { amount } => seq![InjectorOp::Scroll { amount }],
            PrimaryAction::VirtualKeyboard { .. } => seq![InjectorOp::ToggleVirtualKeyboard],
            PrimaryAction::NoAction { .. } => Seq::empty(),
        }
    }

    open spec fn press_spec(&self) -> Seq<InjectorOp> {
        match *self {
            PrimaryAction::KeyPress { key } => seq![
                InjectorOp::Key { key, direction: Direction::Press },
            ],
            PrimaryAction::MouseClick { button } => seq![
                InjectorOp::Button { button, direction: Direction::Press },
            ],
            PrimaryAction::MouseWheel { amount } => seq![InjectorOp::Scroll { amount }],
            PrimaryAction::VirtualKeyboard { .. } => seq![InjectorOp::ToggleVirtualKeyboard],
            PrimaryAction::NoAction { .. } => Seq::empty(),
        }
    }

    open spec fn release_spec(&self) -> Seq<InjectorOp> {
        match *self {
            PrimaryAction::KeyPress { key } => seq![
                InjectorOp::Key { key, direction: Direction::Release },
            ],
            PrimaryAction::MouseClick { button } => seq![
                InjectorOp::Button { button, direction: Direction::Release },
            ],
            _ => Seq::empty(),
        }
    }

    fn execute(&self) -> (ops: Vec<InjectorOp>) {
        let mut ops: Vec<InjectorOp> = Vec::new();
        match *self {
            PrimaryAction::KeyPress { key } => {
                ops.push(InjectorOp::Key { key, direction: Direction::Click });
            },
            PrimaryAction::MouseClick { button } => {
                ops.push(InjectorOp::Button { button, direction: Direction::Click });
            },
            PrimaryAction::MouseWheel { amount } => {
                ops.push(InjectorOp::Scroll { amount });
            },
            PrimaryAction::VirtualKeyboard { .. } => {
                ops.push(InjectorOp::ToggleVirtualKeyboard);
            },
            PrimaryAction::NoAction { .. } => {},
        }
        assert(ops@ =~= self.execute_spec());
        ops
    }

    fn execute_press(&self) -> (ops: Vec<InjectorOp>) {
        let mut ops: Vec<InjectorOp> = Vec::new();
        match *self {
            PrimaryAction::KeyPress { key } => {
                ops.push(InjectorOp::Key { key, direction: Direction::Press });
            },
            PrimaryAction::MouseClick { button } => {
                ops.push(InjectorOp::Button { button, direction: Direction::Press });
            },
            PrimaryAction::MouseWheel { amount } => {
                ops.push(InjectorOp::Scroll { amount });
            },
            PrimaryAction::VirtualKeyboard { .. } => {
                ops.push(InjectorOp::ToggleVirtualKeyboard);
            },
            PrimaryAction::NoAction { .. } => {},
        }
        assert(ops@ =~= self.press_spec());
        ops
    }

    fn execute_release(&self) -> (ops: Vec<InjectorOp>) {
        let mut ops: Vec<InjectorOp> = Vec::new();
        match *self {
            PrimaryAction::KeyPress { key } => {
                ops.push(InjectorOp::Key { key, direction: Direction::Release });
            },
            PrimaryAction::MouseClick { button } => {
                ops.push(InjectorOp::Button { button, direction: Direction::Release });
            },
            _ => {},
        }
        assert(ops@ =~= self.release_spec());
        ops
    }
}

fn push_presses(ops: &mut Vec<InjectorOp>, keys: &Vec<Key>)
    ensures
        final(ops)@ == old(ops)@ + presses(keys@),
{
    let mut i: usize = 0;
    while i < keys.len()
        invariant
            i <= keys.len(),
            ops@ == old(ops)@ + presses(keys@).take(i as int),
        decreases keys.len() - i,
    {
        ops.push(InjectorOp::Key { key: keys[i], direction: Direction::Press });
        assert(presses(keys@).take(i + 1) =~= presses(keys@).take(i as int).push(
            presses(keys@)[i as int],
        ));
        i += 1;
    }
    assert(presses(keys@).take(i as int) =~= presses(keys@));
}

fn push_releases(ops: &mut Vec<InjectorOp>, keys: &Vec<Key>)
    ensures
        final(ops)@ == old(ops)@ + releases(keys@),
{
    let n = keys.len();
    let mut i: usize = 0;
    while i < n
        invariant
            i <= n,
            n == keys.len(),
            ops@ == old(ops)@ + releases(keys@).take(i as int),
        decreases n - i,
    {
        ops.push(InjectorOp::Key { key: keys[n - 1 - i], direction: Direction::Release });
        assert(releases(keys@).take(i + 1) =~= releases(keys@).take(i as int).push(
            releases(keys@)[i as int],
        ));
        i += 1;
    }
    assert(releases(keys@).take(i as int) =~= releases(keys@));
}

fn push_all(ops: &mut Vec<InjectorOp>, more: &Vec<InjectorOp>)
    ensures
        final(ops)@ == old(ops)@ + more@,
{
    let mut i: usize = 0;
    while i < more.len()
        invariant
            i <= more.len(),
            ops@ == old(ops)@ + more@.take(i as int),
        decreases more.len() - i,
    {
        ops.push(more[i]);
        assert(more@.take(i + 1) =~= more@.take(i as int).push(more@[i as int]));
        i += 1;
    }
    assert(more@.take(i as int) =~= more@);
}

impl Executable for Action {
    /// Press the modifiers in order, carry out the primary action, release
    /// the modifiers in reverse order.
    open spec fn execute_spec(&self) -> Seq<InjectorOp> {
        presses(self.modifiers@) + self.primary.execute_spec() + releases(self.modifiers@)
    }

    /// Press the modifiers in order, then the press half of the primary
    /// action.
    open spec fn press_spec(&self) -> Seq<InjectorOp> {
        presses(self.modifiers@) + self.primary.press_spec()
    }

    /// The release half of the primary action, then release the modifiers in
    /// reverse order.
    open spec fn release_spec(&self) -> Seq<InjectorOp> {
        self.primary.release_spec() + releases(self.modifiers@)
    }

    fn execute(&self) -> (ops: Vec<InjectorOp>) {
        let mut ops: Vec<InjectorOp> = Vec::new();
        push_presses(&mut ops, &self.modifiers);
        let primary = self.primary.execute();
        push_all(&mut ops, &primary);
        push_releases(&mut ops, &self.modifiers);
        assert(ops@ =~= self.execute_spec());
        ops
    }

    fn execute_press(&self) -> (ops: Vec<InjectorOp>) {
        let mut ops: Vec<InjectorOp> = Vec::new();
        push_presses(&mut ops, &self.modifiers);
        let primary = self.primary.execute_press();
        push_all(&mut ops, &primary);
        assert(ops@ =~= self.press_spec());
        ops
    }

    fn execute_release(&self) -> (ops: Vec<InjectorOp>) {
        let mut ops: Vec<InjectorOp> = self.primary.execute_release();
        push_releases(&mut ops, &self.modifiers);
        ops
    }
}

impl Action {
    /// The action of a mapping that has not been given one: the space key.
    pub open spec fn space() -> ActionView {
        ActionView {
            modifiers: Seq::empty(),
            primary: PrimaryAction::KeyPress { key: Key::Space },
        }
    }

    /// A copy of this action.
    pub fn duplicate(&self) -> (copy: Action)
        ensures
            copy@ == self@,
    {
        let mut modifiers: Vec<Key> = Vec::new();
        let mut i: usize = 0;
        while i < self.modifiers.len()
            invariant
                i <= self.modifiers.len(),
                modifiers@ == self.modifiers@.take(i as int),
            decreases self.modifiers.len() - i,
        {
            modifiers.push(self.modifiers[i]);
            assert(self.modifiers@.take(i + 1) =~= self.modifiers@.take(i as int).push(
                self.modifiers@[i as int],
            ));
            i += 1;
        }
        assert(self.modifiers@.take(i as int) =~= self.modifiers@);
        Action { modifiers, primary: self.primary }
    }
}

impl Action {
    /// Whether this action and the other are the same: the same modifiers
    /// in the same order, and the same primary action.
    pub fn same_as(&self, other: &Action) -> (same: bool)
        ensures
            same == (self@ == other@),
    {
        if self.primary != other.primary || self.modifiers.len() != other.modifiers.len() {
            return false;
        }
        let mut i: usize = 0;
        while i < self.modifiers.len()
            invariant
                i <= self.modifiers.len(),
                self.modifiers.len() == other.modifiers.len(),
                forall|j: int| 0 <= j < i ==> self.modifiers@[j] == other.modifiers@[j],
            decreases self.modifiers.len() - i,
        {
            if self.modifiers[i] != other.modifiers[i] {
                return false;
            }
            i += 1;
        }
        assert(self.modifiers@ =~= other.modifiers@);
        true
    }
}

impl Clone for Action {
    fn clone(&self) -> (copy: Self)
        ensures
            copy@ == self@,
    {
        self.duplicate()
    }
}

impl Default for Action {
    fn default() -> (action: Self)
        ensures
            action@ == Action::space(),
    {
        Action { modifiers: Vec::new(), primary: PrimaryAction::KeyPress { key: Key::Space } }
    }
}

/// A command on the queue between the dispatch engine and the executor.
#[derive(Debug)]
pub enum EnigoCommand {
    /// Carry out the whole action.
    Execute(Action),
    /// Carry out the press half of the action.
    ExecutePress(Action),
    /// Carry out the release half of the action.
    ExecuteRelease(Action),
}

/// A command as a mathematical value.
pub enum CommandView {
    Execute(ActionView),
    ExecutePress(ActionView),
    ExecuteRelease(ActionView),
}

impl View for EnigoCommand {
    type V = CommandView;

    open spec fn view(&self) -> CommandView {
        match self {
            EnigoCommand::Execute(action) => CommandView::Execute(action@),
            EnigoCommand::ExecutePress(action) => CommandView::ExecutePress(action@),
            EnigoCommand::ExecuteRelease(action) => CommandView::ExecuteRelease(action@),
        }
    }
}

impl EnigoCommand {
    /// The operations on the injector that this command stands for.
    pub open spec fn operations_spec(&self) -> Seq<InjectorOp> {
        match self {
            EnigoCommand::Execute(action) => action.execute_spec(),
            EnigoCommand::ExecutePress(action) => action.press_spec(),
            EnigoCommand::ExecuteRelease(action) => action.release_spec(),
        }
    }

    /// Lists the operations on the injector that this command stands for, in
    /// the order in which the executor performs them.
    pub fn operations(&self) -> (ops: Vec<InjectorOp>)
        ensures
            ops@ == self.operations_spec(),
    {
        match self {
            EnigoCommand::Execute(action) => action.execute(),
            EnigoCommand::ExecutePress(action) => action.execute_press(),
            EnigoCommand::ExecuteRelease(action) => action.execute_release(),
        }
    }
}

/// A press and the release that pairs with it leave every modifier
/// released: the release half lets go of exactly the keys that the press
/// half holds, in reverse order.
pub proof fn lemma_release_mirrors_press(action: Action, i: int)
    requires
        0 <= i < action.modifiers@.len(),
    ensures
        action.press_spec()[i] == (InjectorOp::Key {
            key: action.modifiers@[i],
            direction: Direction::Press,
        }),
        action.release_spec()[action.release_spec().len() - 1 - i] == (InjectorOp::Key {
            key: action.modifiers@[i],
            direction: Direction::Release,
        }),
{
}

/// Lists the operations that strike a plain key combination: press every
/// key in order, then release every key in reverse order.
pub fn press_composed_keys(keys: &Vec<Key>) -> (ops: Vec<InjectorOp>)
    ensures
        ops@ == presses(keys@) + releases(keys@),
{
    let mut ops: Vec<InjectorOp> = Vec::new();
    push_presses(&mut ops, keys);
    push_releases(&mut ops, keys);
    assert(ops@ =~= presses(keys@) + releases(keys@));
    ops
}

} // verus!
