//! Key bindings: tables from key events to the commands of a screen, held
//! in a hash map of `rustc_hash`.
use rustc_hash::FxHashMap;
use vstd::prelude::*;
use crate::keys::{binding_key, KeyCode, KeyEvent, CONTROL, NO_MODIFIERS};

verus! {

/// What a bound key asks a screen to do.
#[derive(PartialEq, Eq, Structural, Clone, Copy)]
pub enum Command {
    MoveUp,
    MoveDown,
    ExitApp,
    Enter,
    MainMenu,
}

/// `rustc_hash::FxBuildHasher`, the hasher of `FxHashMap`.
#[verifier::external_type_specification]
#[verifier::external_body]
pub struct ExFxBuildHasher(rustc_hash::FxBuildHasher);

/// A table of key bindings.
pub type KeyBindings = FxHashMap<u64, Command>;

/// The bindings that a table of key bindings holds: binding key to command.
pub uninterp spec fn bound_commands(m: KeyBindings) -> Map<u64, Command>;

/// Calls `FxHashMap::default()`. Claimed: the new table binds no key.
#[verifier::external_body]
pub(crate) fn new_bindings() -> (table: KeyBindings)
    ensures
        bound_commands(table) =~= Map::empty(),
{
    FxHashMap::default()
}

/// Calls `HashMap::insert` on the table. Claimed: afterwards `key` is bound
/// to `command` and every other binding is as before. (What `insert` returns
/// is not used.)
#[verifier::external_body]
pub(crate) fn bind(m: &mut KeyBindings, key: u64, command: Command)
    ensures
        bound_commands(*final(m)) == bound_commands(*old(m)).insert(key, command),
{
    m.insert(key, command);
}

/// Calls `HashMap::get` on the table and copies the command out. Claimed:
/// the command bound to `key`, or `None` when `key` is not bound.
#[verifier::external_body]
pub(crate) fn bound_command(m: &KeyBindings, key: u64) -> (r: Option<Command>)
    ensures
        r == (if bound_commands(*m).contains_key(key) {
            Some(bound_commands(*m)[key])
        } else {
            None
        }),
{
    m.get(&key).copied()
}

/// The binding key of a press of `code` with `modifiers`.
pub open spec fn press(code: KeyCode, modifiers: u8) -> int {
    binding_key(
        KeyEvent { code, modifiers, kind: crate::keys::KeyEventKind::Press, state: 0 },
    )
}

/// Binds a press of `code` with `modifiers` to `command`.
pub(crate) fn bind_press(
    m: &mut KeyBindings,
    code: KeyCode,
    modifiers: u8,
    command: Command,
)
    ensures
        bound_commands(*final(m)) == bound_commands(*old(m)).insert(
            press(code, modifiers) as u64,
            command,
        ),
        press(code, modifiers) == press(code, modifiers) as u64,
{
    let key = KeyEvent::new(code, modifiers).binding_key();
    bind(m, key, command);
}

/// The command that `event` triggers in the table `m`.
pub(crate) fn command_for(m: &KeyBindings, event: &KeyEvent) -> (r: Option<Command>)
    ensures
        r == (if bound_commands(*m).contains_key(binding_key(*event) as u64) {
            Some(bound_commands(*m)[binding_key(*event) as u64])
        } else {
            None
        }),
        binding_key(*event) == binding_key(*event) as u64,
{
    bound_command(m, event.binding_key())
}

/// The bindings of a menu that is walked with the arrow keys: up, down,
/// control-C to leave and Enter to choose.
pub open spec fn menu_bindings() -> Map<u64, Command> {
    Map::empty().insert(press(KeyCode::Up, NO_MODIFIERS) as u64, Command::MoveUp).insert(
        press(KeyCode::Down, NO_MODIFIERS) as u64,
        Command::MoveDown,
    ).insert(press(KeyCode::Char('c'), CONTROL) as u64, Command::ExitApp).insert(
        press(KeyCode::Enter, NO_MODIFIERS) as u64,
        Command::Enter,
    )
}

/// The bindings of a screen that can only be left: control-C quits and
/// Escape goes back to the main menu.
pub open spec fn leave_bindings() -> Map<u64, Command> {
    Map::empty().insert(press(KeyCode::Char('c'), CONTROL) as u64, Command::ExitApp).insert(
        press(KeyCode::Esc, NO_MODIFIERS) as u64,
        Command::MainMenu,
    )
}

/// The bindings of a list: up and down.
pub open spec fn list_bindings() -> Map<u64, Command> {
    Map::empty().insert(press(KeyCode::Up, NO_MODIFIERS) as u64, Command::MoveUp).insert(
        press(KeyCode::Down, NO_MODIFIERS) as u64,
        Command::MoveDown,
    )
}

} // verus!
