//! The superuser request and its wire codec.
//!
//! A [`SuRequest`] is one atomic ask: run a command (or an interactive
//! shell) as a target user id, with a supplementary group list and a
//! security label. It is decoded from the bytes that follow the superuser
//! command code on the wire, in a fixed, versionless field order:
//! `target_uid`, `target_pid`, `login`, `keep_env`, `shell`, `command`,
//! `context`, `gids`. Strings are length-prefixed UTF-8; the group list is
//! length-prefixed little-endian ids. A truncated stream, invalid UTF-8 or
//! an oversized group list is a decode failure, and nothing of the request
//! takes effect.

use crate::wire::{
    bool_byte, gids_wire, i32_le, lemma_gid_items_wire_len, lemma_parse_bool_exact,
    lemma_parse_bool_sound, lemma_parse_gids_exact, lemma_parse_gids_sound, lemma_parse_i32_exact,
    lemma_parse_i32_sound, lemma_parse_str_exact, lemma_parse_str_sound, parse_bool, parse_gids,
    parse_i32, parse_str, read_bool, read_gids, read_i32, read_str, str_fits, str_wire, write_bool,
    write_gids, write_i32, write_str, MAX_GIDS,
};
use vstd::prelude::*;

verus! {

/// One decoded superuser request.
///
/// `target_pid` identifies the originating client process for
/// notification and attribution; `target_uid` is the identity the spawned
/// process will own. `gids` is the exact supplementary group list the
/// child will receive, replacing any inherited set.
#[derive(Debug, PartialEq, Eq)]
pub struct SuRequest {
    pub target_uid: i32,
    pub target_pid: i32,
    pub login: bool,
    pub keep_env: bool,
    pub shell: String,
    pub command: String,
    pub context: String,
    pub gids: Vec<u32>,
}

/// The mathematical image of a request.
pub ghost struct SuRequestView {
    pub target_uid: i32,
    pub target_pid: i32,
    pub login: bool,
    pub keep_env: bool,
    pub shell: Seq<char>,
    pub command: Seq<char>,
    pub context: Seq<char>,
    pub gids: Seq<u32>,
}

impl View for SuRequest {
    type V = SuRequestView;

    open spec fn view(&self) -> SuRequestView {
        SuRequestView {
            target_uid: self.target_uid,
            target_pid: self.target_pid,
            login: self.login,
            keep_env: self.keep_env,
            shell: self.shell@,
            command: self.command@,
            context: self.context@,
            gids: self.gids@,
        }
    }
}

/// A request that the wire format can carry: each string fits behind a
/// 4-byte length prefix and the group list is not oversized.
pub open spec fn wire_fits(v: SuRequestView) -> bool {
    &&& str_fits(v.shell)
    &&& str_fits(v.command)
    &&& str_fits(v.context)
    &&& v.gids.len() <= MAX_GIDS
}

/// The byte sequence of a request on the wire.
pub open spec fn spec_encode_request(v: SuRequestView) -> Seq<u8> {
    i32_le(v.target_uid) + i32_le(v.target_pid) + seq![bool_byte(v.login)] + seq![
        bool_byte(v.keep_env),
    ] + str_wire(v.shell) + str_wire(v.command) + str_wire(v.context) + gids_wire(v.gids)
}

/// The parse of a whole request payload; `None` on any malformed or
/// trailing input.
pub open spec fn spec_parse_request(b: Seq<u8>) -> Option<SuRequestView> {
    match parse_i32(b, 0) {
        None => None,
        Some((target_uid, p1)) => match parse_i32(b, p1) {
            None => None,
            Some((target_pid, p2)) => match parse_bool(b, p2) {
                None => None,
                Some((login, p3)) => match parse_bool(b, p3) {
                    None => None,
                    Some((keep_env, p4)) => match parse_str(b, p4) {
                        None => None,
                        Some((shell, p5)) => match parse_str(b, p5) {
                            None => None,
                            Some((command, p6)) => match parse_str(b, p6) {
                                None => None,
                                Some((context, p7)) => match parse_gids(b, p7) {
                                    None => None,
                                    Some((gids, p8)) => if p8 == b.len() {
                                        Some(
                                            SuRequestView {
                                                target_uid,
                                                target_pid,
                                                login,
                                                keep_env,
                                                shell,
                                                command,
                                                context,
                                                gids,
                                            },
                                        )
                                    } else {
                                        None
                                    },
                                },
                            },
                        },
                    },
                },
            },
        },
    }
}

impl SuRequest {
    /// Encode this request in the fixed wire field order.
    pub fn encode_to_bytes(&self) -> (r: Vec<u8>)
        requires
            wire_fits(self@),
        ensures
            r@ == spec_encode_request(self@),
    {
        let mut out: Vec<u8> = Vec::new();
        write_i32(&mut out, self.target_uid);
        write_i32(&mut out, self.target_pid);
        write_bool(&mut out, self.login);
        write_bool(&mut out, self.keep_env);
        write_str(&mut out, self.shell.as_str());
        write_str(&mut out, self.command.as_str());
        write_str(&mut out, self.context.as_str());
        write_gids(&mut out, &self.gids);
        assert(out@ =~= spec_encode_request(self@));
        out
    }

    /// Decode a request from a full payload; `None` exactly on input that
    /// is not the encoding of any wire-fitting request.
    pub fn decode_from_bytes(b: &[u8]) -> (r: Option<SuRequest>)
        ensures
            match r {
                Some(req) => spec_parse_request(b@) == Some(req@),
                None => spec_parse_request(b@) is None,
            },
    {
        let (target_uid, p1) = match read_i32(b, 0) {
            Some(x) => x,
            None => {
                return None;
            },
        };
        let (target_pid, p2) = match read_i32(b, p1) {
            Some(x) => x,
            None => {
                return None;
            },
        };
        let (login, p3) = match read_bool(b, p2) {
            Some(x) => x,
            None => {
                return None;
            },
        };
        let (keep_env, p4) = match read_bool(b, p3) {
            Some(x) => x,
            None => {
                return None;
            },
        };
        let (shell, p5) = match read_str(b, p4) {
            Some(x) => x,
            None => {
                return None;
            },
        };
        let (command, p6) = match read_str(b, p5) {
            Some(x) => x,
            None => {
                return None;
            },
        };
        let (context, p7) = match read_str(b, p6) {
            Some(x) => x,
            None => {
                return None;
            },
        };
        let (gids, p8) = match read_gids(b, p7) {
            Some(x) => x,
            None => {
                return None;
            },
        };
        if p8 != b.len() {
            return None;
        }
        Some(SuRequest { target_uid, target_pid, login, keep_env, shell, command, context, gids })
    }
}

/// Every wire-fitting request survives the trip onto the wire and back:
/// parsing its encoding yields the request itself.
#[verifier::rlimit(60)]
pub proof fn lemma_request_round_trip(v: SuRequestView)
    requires
        wire_fits(v),
    ensures
        spec_parse_request(spec_encode_request(v)) == Some(v),
{
    let b = spec_encode_request(v);
    let w1 = i32_le(v.target_uid);
    let w2 = i32_le(v.target_pid);
    let w3 = seq![bool_byte(v.login)];
    let w4 = seq![bool_byte(v.keep_env)];
    let w5 = str_wire(v.shell);
    let w6 = str_wire(v.command);
    let w7 = str_wire(v.context);
    let w8 = gids_wire(v.gids);
    lemma_gid_items_wire_len(v.gids);
    let p1 = w1.len() as int;
    let p2 = p1 + w2.len();
    let p3 = p2 + 1;
    let p4 = p3 + 1;
    let p5 = p4 + w5.len();
    let p6 = p5 + w6.len();
    let p7 = p6 + w7.len();
    let p8 = p7 + w8.len();
    assert(b.len() == p8);
    assert(b.subrange(0, p1) =~= w1);
    lemma_parse_i32_exact(b, 0, v.target_uid);
    assert(b.subrange(p1, p2) =~= w2);
    lemma_parse_i32_exact(b, p1, v.target_pid);
    assert(b[p2] == bool_byte(v.login));
    lemma_parse_bool_exact(b, p2, v.login);
    assert(b[p3] == bool_byte(v.keep_env));
    lemma_parse_bool_exact(b, p3, v.keep_env);
    assert(b.subrange(p4, p5) =~= w5);
    lemma_parse_str_exact(b, p4, v.shell);
    assert(b.subrange(p5, p6) =~= w6);
    lemma_parse_str_exact(b, p5, v.command);
    assert(b.subrange(p6, p7) =~= w7);
    lemma_parse_str_exact(b, p6, v.context);
    assert(b.subrange(p7, p8) =~= w8);
    lemma_parse_gids_exact(b, p7, v.gids);
}

/// The wire format is canonical: every payload the parser accepts is the
/// encoding of the request it returns, byte for byte. No malformed,
/// redundant or trailing-padded payload is ever accepted.
#[verifier::rlimit(60)]
pub proof fn lemma_request_canonical(b: Seq<u8>)
    requires
        spec_parse_request(b) is Some,
    ensures
        wire_fits(spec_parse_request(b)->0),
        spec_encode_request(spec_parse_request(b)->0) == b,
{
    let v = spec_parse_request(b)->0;
    let (target_uid, p1) = parse_i32(b, 0)->0;
    lemma_parse_i32_sound(b, 0);
    let (target_pid, p2) = parse_i32(b, p1)->0;
    lemma_parse_i32_sound(b, p1);
    let (login, p3) = parse_bool(b, p2)->0;
    lemma_parse_bool_sound(b, p2);
    let (keep_env, p4) = parse_bool(b, p3)->0;
    lemma_parse_bool_sound(b, p3);
    let (shell, p5) = parse_str(b, p4)->0;
    lemma_parse_str_sound(b, p4);
    let (command, p6) = parse_str(b, p5)->0;
    lemma_parse_str_sound(b, p5);
    let (context, p7) = parse_str(b, p6)->0;
    lemma_parse_str_sound(b, p6);
    let (gids, p8) = parse_gids(b, p7)->0;
    lemma_parse_gids_sound(b, p7);
    assert(p8 == b.len());
    assert(v == SuRequestView { target_uid, target_pid, login, keep_env, shell, command, context, gids });
    let c2 = i32_le(v.target_uid) + i32_le(v.target_pid);
    assert(c2 =~= b.subrange(0, p2));
    let c3 = c2 + seq![bool_byte(v.login)];
    assert(c3 =~= b.subrange(0, p3));
    let c4 = c3 + seq![bool_byte(v.keep_env)];
    assert(c4 =~= b.subrange(0, p4));
    let c5 = c4 + str_wire(v.shell);
    assert(c5 =~= b.subrange(0, p5));
    let c6 = c5 + str_wire(v.command);
    assert(c6 =~= b.subrange(0, p6));
    let c7 = c6 + str_wire(v.context);
    assert(c7 =~= b.subrange(0, p7));
    let c8 = c7 + gids_wire(v.gids);
    assert(c8 =~= b.subrange(0, p8));
    assert(b.subrange(0, p8) =~= b);
    assert(spec_encode_request(v) == c8);
}

} // verus!
