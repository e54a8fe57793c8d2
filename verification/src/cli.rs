//! The interactive shell's grammar: command-line flags and the input
//! language (`send`, `put`, `get`, `help`, `quit`), parsed into plain
//! decisions. Reading lines and printing replies stay with the shell.

use vstd::prelude::*;
use vstd::string::{StrSliceExecFns, StringExecFns};
use crate::commands::NetworkCommand;
use crate::error::PeernetError;
use crate::swarm::DEFAULT_TOPIC;
use crate::types::{DhtKey, DhtValue, GossipPayload, TopicName};

verus! {

/// Whether two strings hold the same characters.
pub fn str_eq(a: &str, b: &str) -> (r: bool)
    ensures
        r == (a@ == b@),
{
    let na: usize = a.unicode_len();
    let nb: usize = b.unicode_len();
    if na != nb {
        return false;
    }
    let mut i: usize = 0;
    while i < na
        invariant
            0 <= i <= na,
            na == a@.len(),
            na == b@.len(),
            forall|j: int| 0 <= j < i ==> a@[j] == b@[j],
        decreases na - i,
    {
        if a.get_char(i) != b.get_char(i) {
            return false;
        }
        i += 1;
    }
    assert(a@ =~= b@);
    true
}

/// The first position at or after `from` holding a space, or the
/// length when there is none.
pub open spec fn first_space_from(s: Seq<char>, from: int) -> int
    decreases s.len() - from,
{
    if from < 0 || from >= s.len() {
        s.len() as int
    } else if s[from] == ' ' {
        from
    } else {
        first_space_from(s, from + 1)
    }
}

/// Bounds and characterization of `first_space_from`.
pub proof fn lemma_first_space_from(s: Seq<char>, from: int)
    requires
        0 <= from <= s.len(),
    ensures
        from <= first_space_from(s, from) <= s.len(),
        first_space_from(s, from) < s.len() ==> s[first_space_from(s, from)] == ' ',
        forall|j: int| from <= j < first_space_from(s, from) ==> s[j] != ' ',
    decreases s.len() - from,
{
    if from < s.len() && s[from] != ' ' {
        lemma_first_space_from(s, from + 1);
    }
}

/// Finds the first space at or after `from`.
fn find_space(s: &str, from: usize) -> (r: usize)
    requires
        from <= s@.len(),
    ensures
        r == first_space_from(s@, from as int),
        from <= r <= s@.len(),
{
    let n: usize = s.unicode_len();
    let mut i: usize = from;
    while i < n
        invariant
            from <= i <= n,
            n == s@.len(),
            first_space_from(s@, from as int) == first_space_from(s@, i as int),
            forall|j: int| from <= j < i ==> s@[j] != ' ',
        decreases n - i,
    {
        if s.get_char(i) == ' ' {
            return i;
        }
        i += 1;
    }
    n
}

/// Command-line options of the shell: the TCP port (0 for ephemeral)
/// and how often `-v` was given.
#[derive(Debug, Clone, PartialEq, Eq)]
pub struct Args {
    pub port: u16,
    pub verbose: u8,
}

/// A decimal digit.
pub open spec fn is_digit_char(c: char) -> bool {
    '0' <= c && c <= '9'
}

/// A non-empty string of decimal digits.
pub open spec fn is_decimal(s: Seq<char>) -> bool {
    s.len() > 0 && forall|i: int| 0 <= i < s.len() ==> is_digit_char(#[trigger] s[i])
}

/// The numeric value of one digit.
pub open spec fn digit_val(c: char) -> int {
    c as int - '0' as int
}

/// The value of a digit string read in decimal.
pub open spec fn decimal_value(s: Seq<char>) -> int
    decreases s.len(),
{
    if s.len() == 0 {
        0
    } else {
        decimal_value(s.drop_last()) * 10 + digit_val(s.last())
    }
}

/// A digit string's value is non-negative.
pub proof fn lemma_decimal_value_nonneg(s: Seq<char>)
    requires
        forall|i: int| 0 <= i < s.len() ==> is_digit_char(#[trigger] s[i]),
    ensures
        decimal_value(s) >= 0,
    decreases s.len(),
{
    if s.len() > 0 {
        lemma_decimal_value_nonneg(s.drop_last());
    }
}

/// A prefix of a digit string never exceeds the whole string's value.
pub proof fn lemma_decimal_prefix_le(s: Seq<char>, i: int)
    requires
        forall|j: int| 0 <= j < s.len() ==> is_digit_char(#[trigger] s[j]),
        0 <= i <= s.len(),
    ensures
        decimal_value(s.take(i)) <= decimal_value(s),
    decreases s.len() - i,
{
    if i < s.len() {
        assert(s.take(i + 1).drop_last() =~= s.take(i));
        assert(s.take(i + 1).last() == s[i]);
        lemma_decimal_value_nonneg(s.take(i));
        lemma_decimal_prefix_le(s, i + 1);
    } else {
        assert(s.take(i) =~= s);
    }
}

/// Parses a decimal port number.
pub fn parse_u16(s: &str) -> (r: Option<u16>)
    ensures
        r is Some <==> is_decimal(s@) && decimal_value(s@) <= 65535,
        r matches Some(v) ==> v as int == decimal_value(s@),
{
    let n: usize = s.unicode_len();
    if n == 0 {
        return None;
    }
    let mut acc: u32 = 0;
    let mut i: usize = 0;
    while i < n
        invariant
            0 <= i <= n,
            n == s@.len(),
            acc <= 65535,
            acc as int == decimal_value(s@.take(i as int)),
            forall|j: int| 0 <= j < i ==> is_digit_char(#[trigger] s@[j]),
        decreases n - i,
    {
        let c = s.get_char(i);
        if !(c >= '0' && c <= '9') {
            assert(!is_decimal(s@));
            return None;
        }
        let d: u32 = (c as u32) - 48;
        acc = acc * 10 + d;
        proof {
            assert(s@.take(i + 1).drop_last() =~= s@.take(i as int));
            assert(s@.take(i + 1).last() == s@[i as int]);
            assert(acc as int == decimal_value(s@.take(i + 1)));
        }
        if acc > 65535 {
            proof {
                if is_decimal(s@) {
                    lemma_decimal_prefix_le(s@, i + 1);
                }
            }
            return None;
        }
        i += 1;
    }
    assert(s@.take(n as int) =~= s@);
    Some(acc as u16)
}

/// One `-v`-style token: a dash followed only by `v`s, each worth one
/// step of verbosity.
pub open spec fn is_v_bundle(s: Seq<char>) -> bool {
    s.len() >= 2 && s[0] == '-' && forall|i: int| 1 <= i < s.len() ==> s[i] == 'v'
}

/// Verbosity raised by `k` steps, capped at its largest value.
pub open spec fn raise_verbose(v: u8, k: int) -> u8 {
    if v + k > 255 {
        255u8
    } else {
        (v + k) as u8
    }
}

/// The meaning of the flag tokens from position `i` on, given the
/// options read so far: `-p`/`--port` take a port value, each `v` of a
/// `-v` bundle or `--verbose` raises verbosity, anything else is
/// rejected.
pub open spec fn parse_args_spec(tokens: Seq<Seq<char>>, i: int, acc: Args) -> Option<Args>
    decreases tokens.len() - i,
{
    if i < 0 || i >= tokens.len() {
        Some(acc)
    } else {
        let t = tokens[i];
        if t == "-p"@ || t == "--port"@ {
            if i + 1 < tokens.len() && is_decimal(tokens[i + 1]) && decimal_value(tokens[i + 1])
                <= 65535 {
                parse_args_spec(
                    tokens,
                    i + 2,
                    Args { port: decimal_value(tokens[i + 1]) as u16, verbose: acc.verbose },
                )
            } else {
                None
            }
        } else if t == "--verbose"@ {
            parse_args_spec(tokens, i + 1, Args { port: acc.port, verbose: raise_verbose(acc.verbose, 1) })
        } else if is_v_bundle(t) {
            parse_args_spec(
                tokens,
                i + 1,
                Args { port: acc.port, verbose: raise_verbose(acc.verbose, t.len() - 1) },
            )
        } else {
            None
        }
    }
}

/// Whether the token is a dash followed only by `v`s.
fn check_v_bundle(s: &str) -> (r: bool)
    ensures
        r == is_v_bundle(s@),
{
    let n: usize = s.unicode_len();
    if n < 2 {
        return false;
    }
    if s.get_char(0) != '-' {
        return false;
    }
    let mut i: usize = 1;
    while i < n
        invariant
            1 <= i <= n,
            n == s@.len(),
            s@[0] == '-',
            forall|j: int| 1 <= j < i ==> s@[j] == 'v',
        decreases n - i,
    {
        if s.get_char(i) != 'v' {
            return false;
        }
        i += 1;
    }
    true
}

impl Args {
    /// Parses the flag tokens, the first being the program name. An
    /// unrecognized or malformed token rejects the whole line.
    pub fn parse_from(args: Vec<String>) -> (r: Result<Args, PeernetError>)
        ensures
            match parse_args_spec(
                args@.map_values(|a: String| a@),
                1,
                Args { port: 0, verbose: 0 },
            ) {
                Some(parsed) => r == Ok::<Args, PeernetError>(parsed),
                None => r matches Err(e) && e matches PeernetError::ValidationFailed {
                    field,
                    reason,
                } && field@ == "args"@ && reason@ == "unrecognized or malformed argument"@,
            },
    {
        let ghost tokens = args@.map_values(|a: String| a@);
        let n: usize = args.len();
        let mut acc = Args { port: 0, verbose: 0 };
        let mut i: usize = 1;
        while i < n
            invariant
                1 <= i <= n + 1,
                n == args@.len(),
                tokens == args@.map_values(|a: String| a@),
                tokens.len() == n,
                forall|j: int| 0 <= j < n ==> tokens[j] == args@[j]@,
                parse_args_spec(tokens, 1, Args { port: 0, verbose: 0 }) == parse_args_spec(
                    tokens,
                    i as int,
                    acc,
                ),
            decreases n - i,
        {
            let t: &str = args[i].as_str();
            if str_eq(t, "-p") || str_eq(t, "--port") {
                if i + 1 < n {
                    match parse_u16(args[i + 1].as_str()) {
                        Some(port) => {
                            acc = Args { port, verbose: acc.verbose };
                            i = i + 2;
                        },
                        None => {
                            return Err(
                                PeernetError::ValidationFailed {
                                    field: "args",
                                    reason: "unrecognized or malformed argument",
                                },
                            );
                        },
                    }
                } else {
                    return Err(
                        PeernetError::ValidationFailed {
                            field: "args",
                            reason: "unrecognized or malformed argument",
                        },
                    );
                }
            } else if str_eq(t, "--verbose") {
                acc = Args {
                    port: acc.port,
                    verbose: if acc.verbose == 255 {
                        255
                    } else {
                        acc.verbose + 1
                    },
                };
                i = i + 1;
            } else if check_v_bundle(t) {
                let steps: usize = t.unicode_len() - 1;
                acc = Args {
                    port: acc.port,
                    verbose: if steps >= 255 - acc.verbose as usize {
                        255
                    } else {
                        acc.verbose + steps as u8
                    },
                };
                i = i + 1;
            } else {
                return Err(
                    PeernetError::ValidationFailed {
                        field: "args",
                        reason: "unrecognized or malformed argument",
                    },
                );
            }
        }
        Ok(acc)
    }
}

/// One parsed line of shell input: a network request, a shell request,
/// a usage reminder, a rejected value, or an unknown command.
#[derive(Debug, Clone, PartialEq, Eq)]
pub enum InputAction {
    Quit,
    Help,
    Send { payload: GossipPayload },
    Put { key: DhtKey, value: DhtValue },
    Get { key: DhtKey },
    SendUsage,
    PutUsage,
    GetUsage,
    Rejected { error: PeernetError },
    Unknown { command: String },
}

/// The meaning of one input line. The first word picks the command;
/// `send` takes the whole rest of the line, `put` takes a key and a
/// value split at the next space, `get` takes a key.
pub open spec fn input_action_ok(s: Seq<char>, r: InputAction) -> bool {
    let i1 = first_space_from(s, 0);
    let cmd = s.take(i1);
    let rest = if i1 < s.len() {
        s.subrange(i1 + 1, s.len() as int)
    } else {
        Seq::<char>::empty()
    };
    let i2 = if i1 < s.len() {
        first_space_from(s, i1 + 1)
    } else {
        s.len() as int
    };
    let part2 = if i1 < s.len() {
        s.subrange(i1 + 1, i2)
    } else {
        Seq::<char>::empty()
    };
    let part3 = if i2 < s.len() {
        s.subrange(i2 + 1, s.len() as int)
    } else {
        Seq::<char>::empty()
    };
    if cmd == "quit"@ || cmd == "exit"@ || cmd == "q"@ {
        r == InputAction::Quit
    } else if cmd == "help"@ || cmd == "?"@ {
        r == InputAction::Help
    } else if cmd == "send"@ || cmd == "s"@ {
        if rest.len() == 0 {
            r == InputAction::SendUsage
        } else if crate::types::gossip_payload_valid(vstd::utf8::encode_utf8(rest)) {
            r matches InputAction::Send { payload } && payload@ == vstd::utf8::encode_utf8(rest)
        } else {
            r matches InputAction::Rejected { error } && error
                matches PeernetError::ValidationFailed { field, .. } && field@
                == "gossip_payload"@
        }
    } else if cmd == "put"@ {
        if !(i1 < s.len() && i2 < s.len()) {
            r == InputAction::PutUsage
        } else if !crate::types::dht_key_valid(part2) {
            r matches InputAction::Rejected { error } && error
                matches PeernetError::ValidationFailed { field, .. } && field@ == "dht_key"@
        } else if !crate::types::dht_value_valid(vstd::utf8::encode_utf8(part3)) {
            r matches InputAction::Rejected { error } && error
                matches PeernetError::ValidationFailed { field, .. } && field@ == "dht_value"@
        } else {
            r matches InputAction::Put { key, value } && key@ == part2 && value@
                == vstd::utf8::encode_utf8(part3)
        }
    } else if cmd == "get"@ {
        if !(i1 < s.len()) {
            r == InputAction::GetUsage
        } else if !crate::types::dht_key_valid(part2) {
            r matches InputAction::Rejected { error } && error
                matches PeernetError::ValidationFailed { field, .. } && field@ == "dht_key"@
        } else {
            r matches InputAction::Get { key } && key@ == part2
        }
    } else {
        r matches InputAction::Unknown { command } && command@ == cmd
    }
}

/// Parses one line of shell input.
pub fn parse_input(line: &str) -> (r: InputAction)
    ensures
        input_action_ok(line@, r),
{
    let n: usize = line.unicode_len();
    let i1: usize = find_space(line, 0);
    let cmd: &str = line.substring_char(0, i1);
    if str_eq(cmd, "quit") || str_eq(cmd, "exit") || str_eq(cmd, "q") {
        return InputAction::Quit;
    }
    if str_eq(cmd, "help") || str_eq(cmd, "?") {
        return InputAction::Help;
    }
    if str_eq(cmd, "send") || str_eq(cmd, "s") {
        if i1 < n {
            let msg: &str = line.substring_char(i1 + 1, n);
            if msg.is_empty() {
                return InputAction::SendUsage;
            }
            match GossipPayload::from_text(msg) {
                Ok(payload) => {
                    return InputAction::Send { payload };
                },
                Err(error) => {
                    return InputAction::Rejected { error };
                },
            }
        } else {
            return InputAction::SendUsage;
        }
    }
    if str_eq(cmd, "put") {
        if i1 < n {
            let i2: usize = find_space(line, i1 + 1);
            if i2 < n {
                let part2: &str = line.substring_char(i1 + 1, i2);
                let part3: &str = line.substring_char(i2 + 1, n);
                match DhtKey::new(String::from_str(part2)) {
                    Err(error) => {
                        return InputAction::Rejected { error };
                    },
                    Ok(key) => {
                        match DhtValue::new(part3.as_bytes_vec()) {
                            Err(error) => {
                                return InputAction::Rejected { error };
                            },
                            Ok(value) => {
                                return InputAction::Put { key, value };
                            },
                        }
                    },
                }
            } else {
                return InputAction::PutUsage;
            }
        } else {
            return InputAction::PutUsage;
        }
    }
    if str_eq(cmd, "get") {
        if i1 < n {
            let i2: usize = find_space(line, i1 + 1);
            let part2: &str = line.substring_char(i1 + 1, i2);
            match DhtKey::new(String::from_str(part2)) {
                Err(error) => {
                    return InputAction::Rejected { error };
                },
                Ok(key) => {
                    return InputAction::Get { key };
                },
            }
        } else {
            return InputAction::GetUsage;
        }
    }
    InputAction::Unknown { command: String::from_str(cmd) }
}

/// The publish command aimed at the distinguished default topic, as
/// the handle's convenience `publish` issues it.
pub fn publish_default(payload: GossipPayload) -> (r: NetworkCommand)
    ensures
        r matches NetworkCommand::Publish { topic, payload: p } && topic@ == DEFAULT_TOPIC@ && p
            == payload,
{
    NetworkCommand::Publish {
        topic: TopicName::new_unchecked(String::from_str(DEFAULT_TOPIC)),
        payload,
    }
}

/// Turns a parsed input line into the network command it issues, if
/// any: `send` publishes on the default topic, `put` stores, `get`
/// retrieves; everything else stays in the shell.
pub fn input_to_command(action: InputAction) -> (r: Option<NetworkCommand>)
    ensures
        match action {
            InputAction::Send { payload } => r matches Some(c) && c
                matches NetworkCommand::Publish { topic, payload: p } && topic@ == DEFAULT_TOPIC@
                && p == payload,
            InputAction::Put { key, value } => r == Some(
                NetworkCommand::PutRecord { key, value },
            ),
            InputAction::Get { key } => r == Some(NetworkCommand::GetRecord { key }),
            _ => r is None,
        },
{
    match action {
        InputAction::Send { payload } => Some(publish_default(payload)),
        InputAction::Put { key, value } => Some(NetworkCommand::PutRecord { key, value }),
        InputAction::Get { key } => Some(NetworkCommand::GetRecord { key }),
        _ => None,
    }
}

} // verus!
