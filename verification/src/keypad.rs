//! The sixteen-key keypad as a bitmask: bit `k` is set while key `k` is held
//! down.

use vstd::prelude::*;

verus! {

/// Number of keys.
pub const KEY_COUNT: u8 = 16;

/// Whether key `key` is down. No key has a code of 16 or more, so such a key
/// is never down.
pub open spec fn key_down(keyboard: u16, key: int) -> bool {
    0 <= key < 16 && (keyboard >> (key as u16)) & 1 == 1
}

/// The lowest key code from `from` upwards whose key is down, or 16 if there
/// is none.
pub open spec fn lowest_key_from(keyboard: u16, from: int) -> int
    decreases 16 - from,
{
    if from >= 16 {
        16
    } else if key_down(keyboard, from) {
        from
    } else {
        lowest_key_from(keyboard, from + 1)
    }
}

/// The lowest key code whose key is down, or 16 if no key is down.
pub open spec fn lowest_key(keyboard: u16) -> int {
    lowest_key_from(keyboard, 0)
}

/// The keyboard after key `key` went down.
pub open spec fn pressed(keyboard: u16, key: u16) -> u16 {
    keyboard | (1u16 << key)
}

/// The keyboard after key `key` went up.
pub open spec fn released(keyboard: u16, key: u16) -> u16 {
    keyboard & !(1u16 << key)
}

/// `lowest_key_from` finds a key that is down with no key down between
/// `from` and it, or finds that no key from `from` upwards is down.
pub proof fn lemma_lowest_key_from(keyboard: u16, from: int)
    requires
        0 <= from <= 16,
    ensures
        from <= lowest_key_from(keyboard, from) <= 16,
        lowest_key_from(keyboard, from) < 16 ==> key_down(
            keyboard,
            lowest_key_from(keyboard, from),
        ),
        forall|k: int| from <= k < lowest_key_from(keyboard, from) ==> !key_down(keyboard, k),
    decreases 16 - from,
{
    if from < 16 && !key_down(keyboard, from) {
        lemma_lowest_key_from(keyboard, from + 1);
    }
}

/// A keyboard is zero exactly when no key is down.
pub proof fn lemma_no_key_down(keyboard: u16)
    ensures
        keyboard == 0 <==> (forall|k: int| 0 <= k < 16 ==> !key_down(keyboard, k)),
        keyboard == 0 <==> lowest_key(keyboard) == 16,
{
    assert(keyboard == 0 <==> ((keyboard >> 0u16) & 1 != 1 && (keyboard >> 1u16) & 1 != 1 && (
    keyboard >> 2u16) & 1 != 1 && (keyboard >> 3u16) & 1 != 1 && (keyboard >> 4u16) & 1 != 1 && (
    keyboard >> 5u16) & 1 != 1 && (keyboard >> 6u16) & 1 != 1 && (keyboard >> 7u16) & 1 != 1 && (
    keyboard >> 8u16) & 1 != 1 && (keyboard >> 9u16) & 1 != 1 && (keyboard >> 10u16) & 1 != 1 && (
    keyboard >> 11u16) & 1 != 1 && (keyboard >> 12u16) & 1 != 1 && (keyboard >> 13u16) & 1 != 1
        && (keyboard >> 14u16) & 1 != 1 && (keyboard >> 15u16) & 1 != 1)) by (bit_vector);
    lemma_lowest_key_from(keyboard, 0);
    if keyboard != 0 {
        assert(exists|k: int| 0 <= k < 16 && key_down(keyboard, k)) by {
            if key_down(keyboard, 0) {
            } else if key_down(keyboard, 1) {
            } else if key_down(keyboard, 2) {
            } else if key_down(keyboard, 3) {
            } else if key_down(keyboard, 4) {
            } else if key_down(keyboard, 5) {
            } else if key_down(keyboard, 6) {
            } else if key_down(keyboard, 7) {
            } else if key_down(keyboard, 8) {
            } else if key_down(keyboard, 9) {
            } else if key_down(keyboard, 10) {
            } else if key_down(keyboard, 11) {
            } else if key_down(keyboard, 12) {
            } else if key_down(keyboard, 13) {
            } else if key_down(keyboard, 14) {
            } else {
                assert(key_down(keyboard, 15));
            }
        }
        let k = choose|k: int| 0 <= k < 16 && key_down(keyboard, k);
        assert(lowest_key(keyboard) <= k);
    } else {
        assert forall|k: int| 0 <= k < 16 implies !key_down(keyboard, k) by {
            let s = k as u16;
            assert((0u16 >> s) & 1 != 1) by (bit_vector);
        }
    }
}

/// After a key went down it is down, and every other key is as it was.
pub proof fn lemma_pressed(keyboard: u16, key: u16, other: int)
    requires
        key < 16,
    ensures
        key_down(pressed(keyboard, key), key as int),
        other != key ==> key_down(pressed(keyboard, key), other) == key_down(keyboard, other),
{
    assert(((keyboard | (1u16 << key)) >> key) & 1 == 1) by (bit_vector)
        requires
            key < 16,
    ;
    if 0 <= other < 16 && other != key {
        let o = other as u16;
        assert(((keyboard | (1u16 << key)) >> o) & 1 == (keyboard >> o) & 1) by (bit_vector)
            requires
                key < 16,
                o < 16,
                o != key,
        ;
    }
}

/// After a key went up it is up, and every other key is as it was.
pub proof fn lemma_released(keyboard: u16, key: u16, other: int)
    requires
        key < 16,
    ensures
        !key_down(released(keyboard, key), key as int),
        other != key ==> key_down(released(keyboard, key), other) == key_down(keyboard, other),
{
    assert(((keyboard & !(1u16 << key)) >> key) & 1 == 0) by (bit_vector)
        requires
            key < 16,
    ;
    if 0 <= other < 16 && other != key {
        let o = other as u16;
        assert(((keyboard & !(1u16 << key)) >> o) & 1 == (keyboard >> o) & 1) by (bit_vector)
            requires
                key < 16,
                o < 16,
                o != key,
        ;
    }
}

/// Tells whether key `key` is down.
pub fn is_key_down(keyboard: u16, key: u8) -> (down: bool)
    ensures
        down == key_down(keyboard, key as int),
{
    key < KEY_COUNT && (keyboard >> (key as u16)) & 1 == 1
}

/// Finds the lowest key that is down.
pub fn first_key_down(keyboard: u16) -> (key: Option<u8>)
    ensures
        key is None <==> keyboard == 0,
        key matches Some(k) ==> k == lowest_key(keyboard) && k < 16,
{
    proof {
        lemma_no_key_down(keyboard);
    }
    let mut k: u8 = 0;
    while k < KEY_COUNT
        invariant
            k <= 16,
            lowest_key_from(keyboard, k as int) == lowest_key(keyboard),
            keyboard == 0 <==> lowest_key(keyboard) == 16,
        decreases 16 - k,
    {
        if is_key_down(keyboard, k) {
            return Some(k);
        }
        k = k + 1;
    }
    None
}

} // verus!
