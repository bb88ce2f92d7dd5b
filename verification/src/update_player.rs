//! The identity system: rebinds an agent's owning identity and alive flag.

use vstd::prelude::*;
use vstd::utf8::{decode_utf8, valid_utf8};
use crate::codec::{bytes_to_string, copy_range, le_u32_at, read_le_u32};
use crate::errors::SystemError;
use crate::identity::{parse_pubkey_text, parsed_identity, Pubkey};
use crate::player::Player;

verus! {

/// The identity argument record decoded from buffer `b`: a four-byte
/// little-endian length `n`, then `n` bytes of identity text, then one
/// boolean byte that must be `0` or `1`. The text bytes are handed on as
/// they stand; whether they are well-formed UTF-8 is judged separately.
pub open spec fn spec_decode_update_args(b: Seq<u8>) -> Option<(Seq<u8>, bool)> {
    if b.len() >= 5 && b.len() == 5 + le_u32_at(b, 0) {
        let flag = b[b.len() - 1];
        if flag == 0 || flag == 1 {
            Some((b.subrange(4, b.len() - 1), flag == 1))
        } else {
            None
        }
    } else {
        None
    }
}

/// Applies the identity system to one agent.
///
/// The argument buffer must decode to an identity text and an alive flag,
/// and the text — as UTF-8 — must parse as a base-58 address; then the
/// agent's owning identity is replaced by the parsed 32 bytes and its alive
/// flag by the decoded flag, unconditionally: no check that the new owner
/// differs from the old, and no authorization check here. The position and
/// facing are kept. On any failure the agent is left untouched: a malformed
/// buffer (text bytes that are not UTF-8 included) is a decode failure, and
/// text that is no well-formed address is an identity parse failure carrying
/// the parser's reason.
pub fn execute(player: &mut Player, args_p: &Vec<u8>) -> (r: Result<Player, SystemError>)
    ensures
        match spec_decode_update_args(args_p@) {
            Some((text, alive)) => {
                if !valid_utf8(text) {
                    &&& r == Err::<Player, SystemError>(SystemError::DecodeFailure)
                    &&& *final(player) == *old(player)
                } else {
                    match parsed_identity(decode_utf8(text)) {
                        Some(k) => {
                            &&& r matches Ok(p)
                            &&& p == *final(player)
                            &&& final(player).player_id@ == k
                            &&& final(player).alive == alive
                            &&& final(player).x == old(player).x
                            &&& final(player).y == old(player).y
                            &&& final(player).facing == old(player).facing
                        },
                        None => {
                            &&& r matches Err(e)
                            &&& e matches SystemError::IdentityParseFailure(_)
                            &&& *final(player) == *old(player)
                        },
                    }
                }
            },
            None => {
                &&& r == Err::<Player, SystemError>(SystemError::DecodeFailure)
                &&& *final(player) == *old(player)
            },
        },
{
    if args_p.len() < 5 {
        return Err(SystemError::DecodeFailure);
    }
    let n = read_le_u32(args_p, 0);
    if n as usize != args_p.len() - 5 {
        return Err(SystemError::DecodeFailure);
    }
    let flag = args_p[args_p.len() - 1];
    if flag != 0 && flag != 1 {
        return Err(SystemError::DecodeFailure);
    }
    let alive = flag == 1;

    let text_bytes = copy_range(args_p, 4, args_p.len() - 1);
    let text = match bytes_to_string(text_bytes) {
        Some(s) => s,
        None => {
            return Err(SystemError::DecodeFailure);
        },
    };

    let key = match parse_pubkey_text(text.as_str()) {
        Ok(k) => k,
        Err(kind) => {
            return Err(SystemError::IdentityParseFailure(kind));
        },
    };

    player.player_id = Pubkey { bytes: key };
    player.alive = alive;

    Ok(*player)
}

} // verus!
