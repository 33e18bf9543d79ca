//! The keyboard state that the controls read, as bevy keeps it.

use bevy::input::keyboard::KeyCode;
use bevy::input::ButtonInput;
use std::hash::Hash;
use vstd::prelude::*;

verus! {

/// bevy's `KeyCode`, carried through as an opaque value.
#[verifier::external_type_specification]
#[verifier::external_body]
pub struct ExKeyCode(KeyCode);

/// bevy's `ButtonInput`, the sets of buttons that are down and that went down
/// during the current frame.
#[verifier::external_type_specification]
#[verifier::external_body]
#[verifier::reject_recursive_types(T)]
pub struct ExButtonInput<T: Copy + Eq + Hash + Send + Sync + 'static>(ButtonInput<T>);

/// The keys that a keyboard state holds as currently down.
pub uninterp spec fn held_keys(keys: ButtonInput<KeyCode>) -> Set<KeyCode>;

/// The keys that a keyboard state holds as pressed during the current frame.
pub uninterp spec fn fresh_keys(keys: ButtonInput<KeyCode>) -> Set<KeyCode>;

/// Calls `ButtonInput::pressed`, which looks the key up in the set of keys
/// that are down. Trusted: the answer is membership in `held_keys`.
#[verifier::external_body]
pub(crate) fn is_held(keys: &ButtonInput<KeyCode>, key: KeyCode) -> (held: bool)
    ensures
        held == held_keys(*keys).contains(key),
{
    keys.pressed(key)
}

/// Calls `ButtonInput::just_pressed`, which looks the key up in the set of
/// keys that went down during the current frame. Trusted: the answer is
/// membership in `fresh_keys`.
#[verifier::external_body]
pub(crate) fn is_fresh(keys: &ButtonInput<KeyCode>, key: KeyCode) -> (fresh: bool)
    ensures
        fresh == fresh_keys(*keys).contains(key),
{
    keys.just_pressed(key)
}

/// Whether an optional binding names a key that is down.
pub open spec fn binding_held(keys: ButtonInput<KeyCode>, binding: Option<KeyCode>) -> bool {
    binding matches Some(key) && held_keys(keys).contains(key)
}

/// Whether an optional binding names a key that went down during the current
/// frame.
pub open spec fn binding_fresh(keys: ButtonInput<KeyCode>, binding: Option<KeyCode>) -> bool {
    binding matches Some(key) && fresh_keys(keys).contains(key)
}

/// Whether the key of an optional binding is down; an absent binding never is.
pub fn bound_key_held(keys: &ButtonInput<KeyCode>, binding: Option<KeyCode>) -> (held: bool)
    ensures
        held == binding_held(*keys, binding),
{
    match binding {
        Some(key) => is_held(keys, key),
        None => false,
    }
}

/// Whether the key of an optional binding went down during the current frame;
/// an absent binding never did.
pub fn bound_key_fresh(keys: &ButtonInput<KeyCode>, binding: Option<KeyCode>) -> (fresh: bool)
    ensures
        fresh == binding_fresh(*keys, binding),
{
    match binding {
        Some(key) => is_fresh(keys, key),
        None => false,
    }
}

} // verus!
