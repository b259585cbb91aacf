//! The numbers by which a registry tells metrics apart.
//!
//! A number is a hash of the metric's name. The last bytes of the numbers of a vessel's
//! metrics already differ.

use vstd::arithmetic::div_mod::{lemma_fundamental_div_mod, lemma_mod_multiples_vanish};
use vstd::prelude::*;
use vstd::string::*;

verus! {

/// A hash (64-bit FNV-1a) after one more byte.
pub open spec fn hash_step(h: u64, b: u8) -> u64 {
    ((h ^ (b as u64)) * 0x100000001b3 % 0x1_0000_0000_0000_0000) as u64
}

/// A hash after the characters of a text from `i` on, one byte for each.
pub open spec fn hashed(h: u64, s: Seq<char>, i: int) -> u64
    decreases s.len() - i,
{
    if i < 0 || i >= s.len() {
        h
    } else {
        hashed(hash_step(h, s[i] as u8), s, i + 1)
    }
}

/// The number of a metric with this name and without constant labels: the hash of the
/// name, which has one byte for each character, and of a byte that closes it.
pub open spec fn descriptor_id(name: Seq<char>) -> u64 {
    hash_step(hashed(0xcbf29ce484222325, name, 0), 0xff)
}

/// The last byte of a hash after one more byte.
spec fn low_step(x: u64, b: u8) -> u64 {
    ((x ^ (b as u64)) * 179 % 256) as u64
}

/// The last byte of a hash after the characters of a text from `i` on.
spec fn low_hashed(x: u64, s: Seq<char>, i: int) -> u64
    decreases s.len() - i,
{
    if i < 0 || i >= s.len() {
        x
    } else {
        low_hashed(low_step(x, s[i] as u8), s, i + 1)
    }
}

proof fn low_step_is_last_byte(h: u64, b: u8)
    ensures
        hash_step(h, b) % 256 == low_step(h % 256, b),
{
    assert((h ^ (b as u64)) % 256 == (h % 256) ^ (b as u64)) by (bit_vector);
    let x = (h ^ (b as u64)) as int;
    let r = x % 256;
    let q = x / 256;
    let p = x * 0x100000001b3;
    let whole: int = 0x1_0000_0000_0000_0000;
    assert(x == 256 * q + r);
    assert(p == 256 * (q * 0x100000001b3 + r * 0x100000001) + r * 179);
    lemma_mod_multiples_vanish(q * 0x100000001b3 + r * 0x100000001, r * 179, 256);
    lemma_fundamental_div_mod(p, whole);
    assert(p == 256 * (0x100_0000_0000_0000 * (p / whole)) + p % whole);
    lemma_mod_multiples_vanish(0x100_0000_0000_0000 * (p / whole), p % whole, 256);
}

proof fn low_hash_is_last_byte(h: u64, s: Seq<char>, i: int)
    ensures
        hashed(h, s, i) % 256 == low_hashed(h % 256, s, i),
    decreases s.len() - i,
{
    if 0 <= i < s.len() {
        low_step_is_last_byte(h, s[i] as u8);
        low_hash_is_last_byte(hash_step(h, s[i] as u8), s, i + 1);
    }
}

proof fn last_byte(name: Seq<char>)
    ensures
        descriptor_id(name) % 256 == low_step(low_hashed(0x25, name, 0), 0xff),
{
    low_hash_is_last_byte(0xcbf29ce484222325, name, 0);
    low_step_is_last_byte(hashed(0xcbf29ce484222325, name, 0), 0xff);
}

proof fn ticks_total_number()
    ensures
        descriptor_id("exo_ticks_total"@) % 256 == 0x06,
{
    let s = "exo_ticks_total"@;
    last_byte(s);
    reveal_strlit("exo_ticks_total");
    reveal_with_fuel(low_hashed, 17);
    assert(0x25u64 ^ 0x65 == 0x40 && 0xc0u64 ^ 0x78 == 0xb8 && 0xa8u64 ^ 0x6f == 0xc7
        && 0x25u64 ^ 0x5f == 0x7a && 0x4eu64 ^ 0x74 == 0x3a && 0x8eu64 ^ 0x69 == 0xe7
        && 0x85u64 ^ 0x63 == 0xe6 && 0xd2u64 ^ 0x6b == 0xb9 && 0x5bu64 ^ 0x73 == 0x28
        && 0xf8u64 ^ 0x5f == 0xa7 && 0xc5u64 ^ 0x74 == 0xb1 && 0xc3u64 ^ 0x6f == 0xac
        && 0x44u64 ^ 0x74 == 0x30 && 0x90u64 ^ 0x61 == 0xf1 && 0x83u64 ^ 0x6c == 0xef
        && 0x1du64 ^ 0xff == 0xe2) by (bit_vector);
}

proof fn tick_duration_seconds_number()
    ensures
        descriptor_id("exo_tick_duration_seconds"@) % 256 == 0xe3,
{
    let s = "exo_tick_duration_seconds"@;
    last_byte(s);
    reveal_strlit("exo_tick_duration_seconds");
    reveal_with_fuel(low_hashed, 27);
    assert(0x25u64 ^ 0x65 == 0x40 && 0xc0u64 ^ 0x78 == 0xb8 && 0xa8u64 ^ 0x6f == 0xc7
        && 0x25u64 ^ 0x5f == 0x7a && 0x4eu64 ^ 0x74 == 0x3a && 0x8eu64 ^ 0x69 == 0xe7
        && 0x85u64 ^ 0x63 == 0xe6 && 0xd2u64 ^ 0x6b == 0xb9 && 0x5bu64 ^ 0x5f == 0x04
        && 0xccu64 ^ 0x64 == 0xa8 && 0x78u64 ^ 0x75 == 0x0d && 0x17u64 ^ 0x72 == 0x65
        && 0x9fu64 ^ 0x61 == 0xfe && 0x9au64 ^ 0x74 == 0xee && 0x6au64 ^ 0x69 == 0x03
        && 0x19u64 ^ 0x6f == 0x76 && 0x82u64 ^ 0x6e == 0xec && 0x04u64 ^ 0x5f == 0x5b
        && 0xa1u64 ^ 0x73 == 0xd2 && 0xd6u64 ^ 0x65 == 0xb3 && 0x29u64 ^ 0x63 == 0x4a
        && 0xbeu64 ^ 0x6f == 0xd1 && 0x23u64 ^ 0x6e == 0x4d && 0xd7u64 ^ 0x64 == 0xb3
        && 0x29u64 ^ 0x73 == 0x5a && 0xeeu64 ^ 0xff == 0x11) by (bit_vector);
}

proof fn llm_calls_total_number()
    ensures
        descriptor_id("exo_llm_calls_total"@) % 256 == 0x4f,
{
    let s = "exo_llm_calls_total"@;
    last_byte(s);
    reveal_strlit("exo_llm_calls_total");
    reveal_with_fuel(low_hashed, 21);
    assert(0x25u64 ^ 0x65 == 0x40 && 0xc0u64 ^ 0x78 == 0xb8 && 0xa8u64 ^ 0x6f == 0xc7
        && 0x25u64 ^ 0x5f == 0x7a && 0x4eu64 ^ 0x6c == 0x22 && 0xc6u64 ^ 0x6c == 0xaa
        && 0xdeu64 ^ 0x6d == 0xb3 && 0x29u64 ^ 0x5f == 0x76 && 0x82u64 ^ 0x63 == 0xe1
        && 0x53u64 ^ 0x61 == 0x32 && 0xf6u64 ^ 0x6c == 0x9a && 0xaeu64 ^ 0x6c == 0xc2
        && 0xa6u64 ^ 0x73 == 0xd5 && 0xefu64 ^ 0x5f == 0xb0 && 0x10u64 ^ 0x74 == 0x64
        && 0xecu64 ^ 0x6f == 0x83 && 0x99u64 ^ 0x74 == 0xed && 0xb7u64 ^ 0x61 == 0xd6
        && 0xa2u64 ^ 0x6c == 0xce && 0x0au64 ^ 0xff == 0xf5) by (bit_vector);
}

proof fn llm_tokens_total_number()
    ensures
        descriptor_id("exo_llm_tokens_total"@) % 256 == 0x22,
{
    let s = "exo_llm_tokens_total"@;
    last_byte(s);
    reveal_strlit("exo_llm_tokens_total");
    reveal_with_fuel(low_hashed, 22);
    assert(0x25u64 ^ 0x65 == 0x40 && 0xc0u64 ^ 0x78 == 0xb8 && 0xa8u64 ^ 0x6f == 0xc7
        && 0x25u64 ^ 0x5f == 0x7a && 0x4eu64 ^ 0x6c == 0x22 && 0xc6u64 ^ 0x6c == 0xaa
        && 0xdeu64 ^ 0x6d == 0xb3 && 0x29u64 ^ 0x5f == 0x76 && 0x82u64 ^ 0x74 == 0xf6
        && 0x02u64 ^ 0x6f == 0x6d && 0x37u64 ^ 0x6b == 0x5c && 0x54u64 ^ 0x65 == 0x31
        && 0x43u64 ^ 0x6e == 0x2d && 0x77u64 ^ 0x73 == 0x04 && 0xccu64 ^ 0x5f == 0x93
        && 0xc9u64 ^ 0x74 == 0xbd && 0x27u64 ^ 0x6f == 0x48 && 0x58u64 ^ 0x74 == 0x2c
        && 0xc4u64 ^ 0x61 == 0xa5 && 0x5fu64 ^ 0x6c == 0x33 && 0xa9u64 ^ 0xff == 0x56) by (bit_vector);
}

proof fn llm_cost_cents_total_number()
    ensures
        descriptor_id("exo_llm_cost_cents_total"@) % 256 == 0x13,
{
    let s = "exo_llm_cost_cents_total"@;
    last_byte(s);
    reveal_strlit("exo_llm_cost_cents_total");
    reveal_with_fuel(low_hashed, 26);
    assert(0x25u64 ^ 0x65 == 0x40 && 0xc0u64 ^ 0x78 == 0xb8 && 0xa8u64 ^ 0x6f == 0xc7
        && 0x25u64 ^ 0x5f == 0x7a && 0x4eu64 ^ 0x6c == 0x22 && 0xc6u64 ^ 0x6c == 0xaa
        && 0xdeu64 ^ 0x6d == 0xb3 && 0x29u64 ^ 0x5f == 0x76 && 0x82u64 ^ 0x63 == 0xe1
        && 0x53u64 ^ 0x6f == 0x3c && 0xf4u64 ^ 0x73 == 0x87 && 0x65u64 ^ 0x74 == 0x11
        && 0xe3u64 ^ 0x5f == 0xbc && 0x74u64 ^ 0x63 == 0x17 && 0x15u64 ^ 0x65 == 0x70
        && 0x50u64 ^ 0x6e == 0x3e && 0x5au64 ^ 0x74 == 0x2e && 0x2au64 ^ 0x73 == 0x59
        && 0x3bu64 ^ 0x5f == 0x64 && 0xecu64 ^ 0x74 == 0x98 && 0x48u64 ^ 0x6f == 0x27
        && 0x45u64 ^ 0x74 == 0x31 && 0x43u64 ^ 0x61 == 0x22 && 0xc6u64 ^ 0x6c == 0xaa
        && 0xdeu64 ^ 0xff == 0x21) by (bit_vector);
}

proof fn llm_latency_seconds_number()
    ensures
        descriptor_id("exo_llm_latency_seconds"@) % 256 == 0x27,
{
    let s = "exo_llm_latency_seconds"@;
    last_byte(s);
    reveal_strlit("exo_llm_latency_seconds");
    reveal_with_fuel(low_hashed, 25);
    assert(0x25u64 ^ 0x65 == 0x40 && 0xc0u64 ^ 0x78 == 0xb8 && 0xa8u64 ^ 0x6f == 0xc7
        && 0x25u64 ^ 0x5f == 0x7a && 0x4eu64 ^ 0x6c == 0x22 && 0xc6u64 ^ 0x6c == 0xaa
        && 0xdeu64 ^ 0x6d == 0xb3 && 0x29u64 ^ 0x5f == 0x76 && 0x82u64 ^ 0x6c == 0xee
        && 0x6au64 ^ 0x61 == 0x0b && 0xb1u64 ^ 0x74 == 0xc5 && 0xbfu64 ^ 0x65 == 0xda
        && 0x6eu64 ^ 0x6e == 0x00 && 0x00u64 ^ 0x63 == 0x63 && 0x39u64 ^ 0x79 == 0x40
        && 0xc0u64 ^ 0x5f == 0x9f && 0x2du64 ^ 0x73 == 0x5e && 0xbau64 ^ 0x65 == 0xdf
        && 0xedu64 ^ 0x63 == 0x8e && 0x4au64 ^ 0x6f == 0x25 && 0xdfu64 ^ 0x6e == 0xb1
        && 0xc3u64 ^ 0x64 == 0xa7 && 0xc5u64 ^ 0x73 == 0xb6 && 0x42u64 ^ 0xff == 0xbd) by (bit_vector);
}

proof fn thread_runs_total_number()
    ensures
        descriptor_id("exo_thread_runs_total"@) % 256 == 0xa1,
{
    let s = "exo_thread_runs_total"@;
    last_byte(s);
    reveal_strlit("exo_thread_runs_total");
    reveal_with_fuel(low_hashed, 23);
    assert(0x25u64 ^ 0x65 == 0x40 && 0xc0u64 ^ 0x78 == 0xb8 && 0xa8u64 ^ 0x6f == 0xc7
        && 0x25u64 ^ 0x5f == 0x7a && 0x4eu64 ^ 0x74 == 0x3a && 0x8eu64 ^ 0x68 == 0xe6
        && 0xd2u64 ^ 0x72 == 0xa0 && 0xe0u64 ^ 0x65 == 0x85 && 0xffu64 ^ 0x61 == 0x9e
        && 0x7au64 ^ 0x64 == 0x1e && 0xfau64 ^ 0x5f == 0xa5 && 0x5fu64 ^ 0x72 == 0x2d
        && 0x77u64 ^ 0x75 == 0x02 && 0x66u64 ^ 0x6e == 0x08 && 0x98u64 ^ 0x73 == 0xeb
        && 0x51u64 ^ 0x5f == 0x0e && 0xcau64 ^ 0x74 == 0xbe && 0xdau64 ^ 0x6f == 0xb5
        && 0x8fu64 ^ 0x74 == 0xfb && 0x81u64 ^ 0x61 == 0xe0 && 0xa0u64 ^ 0x6c == 0xcc
        && 0xa4u64 ^ 0xff == 0x5b) by (bit_vector);
}

proof fn actions_total_number()
    ensures
        descriptor_id("exo_actions_total"@) % 256 == 0x3d,
{
    let s = "exo_actions_total"@;
    last_byte(s);
    reveal_strlit("exo_actions_total");
    reveal_with_fuel(low_hashed, 19);
    assert(0x25u64 ^ 0x65 == 0x40 && 0xc0u64 ^ 0x78 == 0xb8 && 0xa8u64 ^ 0x6f == 0xc7
        && 0x25u64 ^ 0x5f == 0x7a && 0x4eu64 ^ 0x61 == 0x2f && 0xddu64 ^ 0x63 == 0xbe
        && 0xdau64 ^ 0x74 == 0xae && 0xaau64 ^ 0x69 == 0xc3 && 0x59u64 ^ 0x6f == 0x36
        && 0xc2u64 ^ 0x6e == 0xac && 0x44u64 ^ 0x73 == 0x37 && 0x75u64 ^ 0x5f == 0x2a
        && 0x5eu64 ^ 0x74 == 0x2a && 0x5eu64 ^ 0x6f == 0x31 && 0x43u64 ^ 0x74 == 0x37
        && 0x75u64 ^ 0x61 == 0x14 && 0xfcu64 ^ 0x6c == 0x90 && 0xb0u64 ^ 0xff == 0x4f) by (bit_vector);
}

proof fn budget_remaining_number()
    ensures
        descriptor_id("exo_budget_remaining"@) % 256 == 0xd1,
{
    let s = "exo_budget_remaining"@;
    last_byte(s);
    reveal_strlit("exo_budget_remaining");
    reveal_with_fuel(low_hashed, 22);
    assert(0x25u64 ^ 0x65 == 0x40 && 0xc0u64 ^ 0x78 == 0xb8 && 0xa8u64 ^ 0x6f == 0xc7
        && 0x25u64 ^ 0x5f == 0x7a && 0x4eu64 ^ 0x62 == 0x2c && 0xc4u64 ^ 0x75 == 0xb1
        && 0xc3u64 ^ 0x64 == 0xa7 && 0xc5u64 ^ 0x67 == 0xa2 && 0x46u64 ^ 0x65 == 0x23
        && 0x79u64 ^ 0x74 == 0x0d && 0x17u64 ^ 0x5f == 0x48 && 0x58u64 ^ 0x72 == 0x2a
        && 0x5eu64 ^ 0x65 == 0x3b && 0x41u64 ^ 0x6d == 0x2c && 0xc4u64 ^ 0x61 == 0xa5
        && 0x5fu64 ^ 0x69 == 0x36 && 0xc2u64 ^ 0x6e == 0xac && 0x44u64 ^ 0x69 == 0x2d
        && 0x77u64 ^ 0x6e == 0x19 && 0x7bu64 ^ 0x67 == 0x1c && 0x94u64 ^ 0xff == 0x6b) by (bit_vector);
}

proof fn relationship_entries_total_number()
    ensures
        descriptor_id("exo_relationship_entries_total"@) % 256 == 0x2f,
{
    let s = "exo_relationship_entries_total"@;
    last_byte(s);
    reveal_strlit("exo_relationship_entries_total");
    reveal_with_fuel(low_hashed, 32);
    assert(0x25u64 ^ 0x65 == 0x40 && 0xc0u64 ^ 0x78 == 0xb8 && 0xa8u64 ^ 0x6f == 0xc7
        && 0x25u64 ^ 0x5f == 0x7a && 0x4eu64 ^ 0x72 == 0x3c && 0xf4u64 ^ 0x65 == 0x91
        && 0x63u64 ^ 0x6c == 0x0f && 0x7du64 ^ 0x61 == 0x1c && 0x94u64 ^ 0x74 == 0xe0
        && 0xa0u64 ^ 0x69 == 0xc9 && 0x8bu64 ^ 0x6f == 0xe4 && 0x6cu64 ^ 0x6e == 0x02
        && 0x66u64 ^ 0x73 == 0x15 && 0xafu64 ^ 0x68 == 0xc7 && 0x25u64 ^ 0x69 == 0x4c
        && 0x24u64 ^ 0x70 == 0x54 && 0xbcu64 ^ 0x5f == 0xe3 && 0xb9u64 ^ 0x65 == 0xdc
        && 0xd4u64 ^ 0x6e == 0xba && 0x0eu64 ^ 0x74 == 0x7a && 0x4eu64 ^ 0x72 == 0x3c
        && 0xf4u64 ^ 0x69 == 0x9d && 0xc7u64 ^ 0x65 == 0xa2 && 0x46u64 ^ 0x73 == 0x35
        && 0x0fu64 ^ 0x5f == 0x50 && 0xf0u64 ^ 0x74 == 0x84 && 0x4cu64 ^ 0x6f == 0x23
        && 0x79u64 ^ 0x74 == 0x0d && 0x17u64 ^ 0x61 == 0x76 && 0x82u64 ^ 0x6c == 0xee
        && 0x6au64 ^ 0xff == 0x95) by (bit_vector);
}

proof fn artifacts_total_number()
    ensures
        descriptor_id("exo_artifacts_total"@) % 256 == 0xa5,
{
    let s = "exo_artifacts_total"@;
    last_byte(s);
    reveal_strlit("exo_artifacts_total");
    reveal_with_fuel(low_hashed, 21);
    assert(0x25u64 ^ 0x65 == 0x40 && 0xc0u64 ^ 0x78 == 0xb8 && 0xa8u64 ^ 0x6f == 0xc7
        && 0x25u64 ^ 0x5f == 0x7a && 0x4eu64 ^ 0x61 == 0x2f && 0xddu64 ^ 0x72 == 0xaf
        && 0x5du64 ^ 0x74 == 0x29 && 0xabu64 ^ 0x69 == 0xc2 && 0xa6u64 ^ 0x66 == 0xc0
        && 0x40u64 ^ 0x61 == 0x21 && 0x13u64 ^ 0x63 == 0x70 && 0x50u64 ^ 0x74 == 0x24
        && 0x2cu64 ^ 0x73 == 0x5f && 0x6du64 ^ 0x5f == 0x32 && 0xf6u64 ^ 0x74 == 0x82
        && 0xe6u64 ^ 0x6f == 0x89 && 0xcbu64 ^ 0x74 == 0xbf && 0x8du64 ^ 0x61 == 0xec
        && 0x04u64 ^ 0x6c == 0x68 && 0xb8u64 ^ 0xff == 0x47) by (bit_vector);
}

proof fn current_tick_number_number()
    ensures
        descriptor_id("exo_current_tick_number"@) % 256 == 0x8c,
{
    let s = "exo_current_tick_number"@;
    last_byte(s);
    reveal_strlit("exo_current_tick_number");
    reveal_with_fuel(low_hashed, 25);
    assert(0x25u64 ^ 0x65 == 0x40 && 0xc0u64 ^ 0x78 == 0xb8 && 0xa8u64 ^ 0x6f == 0xc7
        && 0x25u64 ^ 0x5f == 0x7a && 0x4eu64 ^ 0x63 == 0x2d && 0x77u64 ^ 0x75 == 0x02
        && 0x66u64 ^ 0x72 == 0x14 && 0xfcu64 ^ 0x72 == 0x8e && 0x4au64 ^ 0x65 == 0x2f
        && 0xddu64 ^ 0x6e == 0xb3 && 0x29u64 ^ 0x74 == 0x5d && 0x07u64 ^ 0x5f == 0x58
        && 0x88u64 ^ 0x74 == 0xfc && 0x34u64 ^ 0x69 == 0x5d && 0x07u64 ^ 0x63 == 0x64
        && 0xecu64 ^ 0x6b == 0x87 && 0x65u64 ^ 0x5f == 0x3a && 0x8eu64 ^ 0x6e == 0xe0
        && 0xa0u64 ^ 0x75 == 0xd5 && 0xefu64 ^ 0x6d == 0x82 && 0xe6u64 ^ 0x62 == 0x84
        && 0x4cu64 ^ 0x65 == 0x29 && 0xabu64 ^ 0x72 == 0xd9 && 0xbbu64 ^ 0xff == 0x44) by (bit_vector);
}

proof fn uptime_seconds_number()
    ensures
        descriptor_id("exo_uptime_seconds"@) % 256 == 0x19,
{
    let s = "exo_uptime_seconds"@;
    last_byte(s);
    reveal_strlit("exo_uptime_seconds");
    reveal_with_fuel(low_hashed, 20);
    assert(0x25u64 ^ 0x65 == 0x40 && 0xc0u64 ^ 0x78 == 0xb8 && 0xa8u64 ^ 0x6f == 0xc7
        && 0x25u64 ^ 0x5f == 0x7a && 0x4eu64 ^ 0x75 == 0x3b && 0x41u64 ^ 0x70 == 0x31
        && 0x43u64 ^ 0x74 == 0x37 && 0x75u64 ^ 0x69 == 0x1c && 0x94u64 ^ 0x6d == 0xf9
        && 0x1bu64 ^ 0x65 == 0x7e && 0x1au64 ^ 0x5f == 0x45 && 0x3fu64 ^ 0x73 == 0x4c
        && 0x24u64 ^ 0x65 == 0x41 && 0x73u64 ^ 0x63 == 0x10 && 0x30u64 ^ 0x6f == 0x5f
        && 0x6du64 ^ 0x6e == 0x03 && 0x19u64 ^ 0x64 == 0x7d && 0x67u64 ^ 0x73 == 0x14
        && 0xfcu64 ^ 0xff == 0x03) by (bit_vector);
}

proof fn tool_active_flows_number()
    ensures
        descriptor_id("exo_tool_active_flows"@) % 256 == 0x3a,
{
    let s = "exo_tool_active_flows"@;
    last_byte(s);
    reveal_strlit("exo_tool_active_flows");
    reveal_with_fuel(low_hashed, 23);
    assert(0x25u64 ^ 0x65 == 0x40 && 0xc0u64 ^ 0x78 == 0xb8 && 0xa8u64 ^ 0x6f == 0xc7
        && 0x25u64 ^ 0x5f == 0x7a && 0x4eu64 ^ 0x74 == 0x3a && 0x8eu64 ^ 0x6f == 0xe1
        && 0x53u64 ^ 0x6f == 0x3c && 0xf4u64 ^ 0x6c == 0x98 && 0x48u64 ^ 0x5f == 0x17
        && 0x15u64 ^ 0x61 == 0x74 && 0x1cu64 ^ 0x63 == 0x7f && 0xcdu64 ^ 0x74 == 0xb9
        && 0x5bu64 ^ 0x69 == 0x32 && 0xf6u64 ^ 0x76 == 0x80 && 0x80u64 ^ 0x65 == 0xe5
        && 0x1fu64 ^ 0x5f == 0x40 && 0xc0u64 ^ 0x66 == 0xa6 && 0x12u64 ^ 0x6c == 0x7e
        && 0x1au64 ^ 0x6f == 0x75 && 0xcfu64 ^ 0x77 == 0xb8 && 0xa8u64 ^ 0x73 == 0xdb
        && 0x21u64 ^ 0xff == 0xde) by (bit_vector);
}

/// The last byte of the number of each metric.
pub proof fn last_bytes()
    ensures
        descriptor_id("exo_ticks_total"@) % 256 == 0x06,
        descriptor_id("exo_tick_duration_seconds"@) % 256 == 0xe3,
        descriptor_id("exo_llm_calls_total"@) % 256 == 0x4f,
        descriptor_id("exo_llm_tokens_total"@) % 256 == 0x22,
        descriptor_id("exo_llm_cost_cents_total"@) % 256 == 0x13,
        descriptor_id("exo_llm_latency_seconds"@) % 256 == 0x27,
        descriptor_id("exo_thread_runs_total"@) % 256 == 0xa1,
        descriptor_id("exo_actions_total"@) % 256 == 0x3d,
        descriptor_id("exo_budget_remaining"@) % 256 == 0xd1,
        descriptor_id("exo_relationship_entries_total"@) % 256 == 0x2f,
        descriptor_id("exo_artifacts_total"@) % 256 == 0xa5,
        descriptor_id("exo_current_tick_number"@) % 256 == 0x8c,
        descriptor_id("exo_uptime_seconds"@) % 256 == 0x19,
        descriptor_id("exo_tool_active_flows"@) % 256 == 0x3a,
{
    ticks_total_number();
    tick_duration_seconds_number();
    llm_calls_total_number();
    llm_tokens_total_number();
    llm_cost_cents_total_number();
    llm_latency_seconds_number();
    thread_runs_total_number();
    actions_total_number();
    budget_remaining_number();
    relationship_entries_total_number();
    artifacts_total_number();
    current_tick_number_number();
    uptime_seconds_number();
    tool_active_flows_number();
}

} // verus!
