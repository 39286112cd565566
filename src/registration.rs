//! The administrative write path: reading the three arguments of a binding
//! registration (an emoji, a role, a message link) into the binding to
//! upsert and the reaction to put on the message.

use vstd::prelude::*;
use crate::binding::{EmojiKey, EmojiKeyView, ReactionBinding, BindingView};
use crate::text::{
    all_ascii, decimal_u64, starts_with, ends_with_char, lit_at, skip_lit, digit_run_end, find_char,
    trim_trailing, chars_of, digits_in, decimal_in, lit_at_exec, skip_lit_exec, digit_run_end_exec, find_char_exec,
    trim_trailing_end, is_ascii_exec, parse_u64,
};

verus! {

#[derive(Debug, Clone, Copy, PartialEq, Eq, Structural)]
pub enum RegistrationError {
    MalformedEmoji,
    UnresolvableRole,
    MalformedMessageReference,
}

/// The channel and message a message link points at.
#[derive(Debug, Clone, Copy, PartialEq, Eq, Structural)]
pub struct MessageRef {
    pub channel_id: u64,
    pub message_id: u64,
}

// ---------------------------------------------------------------- links

pub open spec fn pat_http() -> Seq<char> {
    seq!['h', 't', 't', 'p']
}

pub open spec fn pat_s() -> Seq<char> {
    seq!['s']
}

pub open spec fn pat_colon_slash() -> Seq<char> {
    seq![':', '/']
}

pub open spec fn pat_slash() -> Seq<char> {
    seq!['/']
}

pub open spec fn pat_ptb() -> Seq<char> {
    seq!['p', 't', 'b', '.']
}

pub open spec fn pat_canary() -> Seq<char> {
    seq!['c', 'a', 'n', 'a', 'r', 'y', '.']
}

pub open spec fn pat_discord() -> Seq<char> {
    seq!['d', 'i', 's', 'c', 'o', 'r', 'd']
}

pub open spec fn pat_app() -> Seq<char> {
    seq!['a', 'p', 'p']
}

pub open spec fn pat_channels() -> Seq<char> {
    seq!['.', 'c', 'o', 'm', '/', 'c', 'h', 'a', 'n', 'n', 'e', 'l', 's', '/']
}

/// A message link starting at `i`:
/// `http[s]:/[/][ptb.|canary.]discord[app].com/channels/<digits>/<channel>/<message>`,
/// where the two last parts are runs of digits, possibly empty. Gives the
/// bounds of the channel and message digits.
pub open spec fn link_at(s: Seq<char>, i: int) -> Option<(int, int, int, int)> {
    if !lit_at(s, i, pat_http()) {
        None
    } else {
        let a = skip_lit(s, i + 4, pat_s());
        if !lit_at(s, a, pat_colon_slash()) {
            None
        } else {
            let b = skip_lit(s, a + 2, pat_slash());
            let c = if lit_at(s, b, pat_ptb()) {
                b + 4
            } else {
                skip_lit(s, b, pat_canary())
            };
            if !lit_at(s, c, pat_discord()) {
                None
            } else {
                let d = skip_lit(s, c + 7, pat_app());
                if !lit_at(s, d, pat_channels()) {
                    None
                } else {
                    let g = digit_run_end(s, d + 14);
                    if !lit_at(s, g, pat_slash()) {
                        None
                    } else {
                        let c1 = digit_run_end(s, g + 1);
                        if !lit_at(s, c1, pat_slash()) {
                            None
                        } else {
                            Some((g + 1, c1, c1 + 1, digit_run_end(s, c1 + 1)))
                        }
                    }
                }
            }
        }
    }
}

/// The first message link at or after position `i`.
pub open spec fn first_link(s: Seq<char>, i: int) -> Option<(int, int, int, int)>
    decreases s.len() - i,
{
    if i < 0 || i >= s.len() {
        None
    } else {
        match link_at(s, i) {
            Some(m) => Some(m),
            None => first_link(s, i + 1),
        }
    }
}

/// What a message link argument refers to: the first link in it, whose
/// channel and message ids must both be 64-bit numbers.
pub open spec fn message_ref(s: Seq<char>) -> Option<MessageRef> {
    match first_link(s, 0) {
        Some((c0, c1, m0, m1)) => match (decimal_u64(s.subrange(c0, c1)), decimal_u64(s.subrange(m0, m1))) {
            (Some(c), Some(m)) => Some(MessageRef { channel_id: c, message_id: m }),
            _ => None,
        },
        None => None,
    }
}

fn link_at_exec(v: &Vec<char>, i: usize) -> (r: Option<(usize, usize, usize, usize)>)
    requires
        i <= v@.len(),
    ensures
        match r {
            Some((c0, c1, m0, m1)) => link_at(v@, i as int) == Some((c0 as int, c1 as int, m0 as int, m1 as int))
                && c0 <= c1 <= m0 <= m1 <= v@.len(),
            None => link_at(v@, i as int) is None,
        },
{
    let http = vec!['h', 't', 't', 'p'];
    let s_ = vec!['s'];
    let colon_slash = vec![':', '/'];
    let slash = vec!['/'];
    let ptb = vec!['p', 't', 'b', '.'];
    let canary = vec!['c', 'a', 'n', 'a', 'r', 'y', '.'];
    let discord = vec!['d', 'i', 's', 'c', 'o', 'r', 'd'];
    let app = vec!['a', 'p', 'p'];
    let channels = vec!['.', 'c', 'o', 'm', '/', 'c', 'h', 'a', 'n', 'n', 'e', 'l', 's', '/'];
    assert(http@ == pat_http());
    assert(s_@ == pat_s());
    assert(colon_slash@ == pat_colon_slash());
    assert(slash@ == pat_slash());
    assert(ptb@ == pat_ptb());
    assert(canary@ == pat_canary());
    assert(discord@ == pat_discord());
    assert(app@ == pat_app());
    assert(channels@ == pat_channels());
    if !lit_at_exec(v, i, &http) {
        return None;
    }
    let a = skip_lit_exec(v, i + 4, &s_);
    if !lit_at_exec(v, a, &colon_slash) {
        return None;
    }
    let b = skip_lit_exec(v, a + 2, &slash);
    let c = if lit_at_exec(v, b, &ptb) {
        b + 4
    } else {
        skip_lit_exec(v, b, &canary)
    };
    if !lit_at_exec(v, c, &discord) {
        return None;
    }
    let d = skip_lit_exec(v, c + 7, &app);
    if !lit_at_exec(v, d, &channels) {
        return None;
    }
    let g = digit_run_end_exec(v, d + 14);
    if !lit_at_exec(v, g, &slash) {
        return None;
    }
    let c1 = digit_run_end_exec(v, g + 1);
    if !lit_at_exec(v, c1, &slash) {
        return None;
    }
    let m1 = digit_run_end_exec(v, c1 + 1);
    Some((g + 1, c1, c1 + 1, m1))
}

/// Reads a message link (as a user pastes it) into its channel and message
/// ids. The first link in the text counts; if its ids are missing or too
/// large the argument is rejected.
pub fn parse_message_link(link: &str) -> (r: Result<MessageRef, RegistrationError>)
    ensures
        match message_ref(link@) {
            Some(m) => r == Ok::<MessageRef, RegistrationError>(m),
            None => r == Err::<MessageRef, RegistrationError>(RegistrationError::MalformedMessageReference),
        },
{
    let v = chars_of(link);
    let n = v.len();
    let mut i: usize = 0;
    while i < n
        invariant
            n == v@.len(),
            v@ == link@,
            i <= n,
            first_link(link@, 0) == first_link(link@, i as int),
        decreases n - i,
    {
        match link_at_exec(&v, i) {
            Some((c0, c1, m0, m1)) => {
                let channel = digits_in(&v, c0, c1);
                let message = digits_in(&v, m0, m1);
                proof {
                    let cs = link@.subrange(c0 as int, c1 as int);
                    let ms = link@.subrange(m0 as int, m1 as int);
                    assert(crate::text::unsigned_digits(cs) == cs);
                    assert(crate::text::unsigned_digits(ms) == ms);
                }
                return match (channel, message) {
                    (Some(c), Some(m)) => Ok(MessageRef { channel_id: c, message_id: m }),
                    _ => Err(RegistrationError::MalformedMessageReference),
                };
            },
            None => {},
        }
        i = i + 1;
    }
    Err(RegistrationError::MalformedMessageReference)
}

// ---------------------------------------------------------------- roles

/// The id in a role mention `<@&id>`.
pub open spec fn role_mention(s: Seq<char>) -> Option<u64> {
    if starts_with(s, seq!['<', '@', '&']) && ends_with_char(s, '>') {
        decimal_u64(s.subrange(3, s.len() - 1))
    } else {
        None
    }
}

/// A role argument: a role mention, or the role id itself.
pub open spec fn role_argument(s: Seq<char>) -> Option<u64> {
    match role_mention(s) {
        Some(r) => Some(r),
        None => decimal_u64(s),
    }
}

/// Relies on serenity::utils::parse_role: for text starting with `<@&` and
/// ending with `>`, what lies between parsed as a `u64`; otherwise `None`.
#[verifier::external_body]
fn parse_role_mention(s: &str) -> (r: Option<u64>)
    ensures
        r == role_mention(s@),
{
    serenity::utils::parse_role(s)
}

/// Reads a role argument into a role id.
pub fn parse_role_argument(arg: &str) -> (r: Result<u64, RegistrationError>)
    ensures
        match role_argument(arg@) {
            Some(role) => r == Ok::<u64, RegistrationError>(role),
            None => r == Err::<u64, RegistrationError>(RegistrationError::UnresolvableRole),
        },
{
    match parse_role_mention(arg) {
        Some(role) => Ok(role),
        None => match parse_u64(arg) {
            Some(role) => Ok(role),
            None => Err(RegistrationError::UnresolvableRole),
        },
    }
}

// ---------------------------------------------------------------- emoji

/// What serenity reads from custom emoji markup `<:name:id>`: its name and id.
pub uninterp spec fn emoji_mention(s: Seq<char>) -> Option<(Seq<char>, u64)>;

/// serenity's emoji parser slices by character counts; it is only asked
/// where those are byte offsets: for ASCII text, or text that it turns down
/// at once for not starting with `<:`.
pub open spec fn mention_parser_applies(s: Seq<char>) -> bool {
    all_ascii(s) || !starts_with(s, seq!['<', ':'])
}

/// Relies on serenity::utils::parse_emoji: the name and id of custom emoji
/// markup, or `None`.
#[verifier::external_body]
fn parse_emoji_mention(s: &str) -> (r: Option<(String, u64)>)
    requires
        mention_parser_applies(s@),
    ensures
        match r {
            Some((name, id)) => emoji_mention(s@) == Some((name@, id)),
            None => emoji_mention(s@) is None,
        },
{
    serenity::utils::parse_emoji(s).map(|e| (e.name, e.id.0))
}

/// An emoji argument once read: the key bindings match on, and the name
/// the reaction is added under (the literal itself for a standard emoji).
#[derive(Debug)]
pub struct EmojiArgument {
    pub key: EmojiKey,
    pub name: String,
}

/// Animated custom emoji markup `<a:name:id>`, read as text split at `:`:
/// the second piece is the name, the third with its trailing `>`s removed
/// is the id.
pub open spec fn animated_emoji(s: Seq<char>) -> Option<(Seq<char>, u64)> {
    let c1 = find_char(s, 3, ':');
    if c1 >= s.len() {
        None
    } else {
        let c2 = find_char(s, c1 + 1, ':');
        match decimal_u64(trim_trailing(s.subrange(c1 + 1, c2), '>')) {
            Some(id) => Some((s.subrange(3, c1), id)),
            None => None,
        }
    }
}

/// How an emoji argument reads, given what the markup parser made of it:
/// custom markup gives its id and name; else animated markup `<a:..>` must
/// give them; else text with a non-ASCII character is a standard emoji;
/// anything else is malformed.
pub open spec fn emoji_argument(s: Seq<char>, mention: Option<(Seq<char>, u64)>) -> Option<(EmojiKeyView, Seq<char>)> {
    match mention {
        Some((name, id)) => Some((EmojiKeyView::Custom(id), name)),
        None => if starts_with(s, seq!['<', 'a', ':']) {
            match animated_emoji(s) {
                Some((name, id)) => Some((EmojiKeyView::Custom(id), name)),
                None => None,
            }
        } else if !all_ascii(s) {
            Some((EmojiKeyView::Unicode(s), s))
        } else {
            None
        },
    }
}

/// What the markup parser is taken to say of `s`.
pub open spec fn mention_of(s: Seq<char>) -> Option<(Seq<char>, u64)> {
    if mention_parser_applies(s) {
        emoji_mention(s)
    } else {
        None
    }
}

pub open spec fn emoji_result_matches(r: Result<EmojiArgument, RegistrationError>, e: Option<(EmojiKeyView, Seq<char>)>) -> bool {
    match e {
        Some((key, name)) => r matches Ok(a) && a.key@ == key && a.name@ == name,
        None => r == Err::<EmojiArgument, RegistrationError>(RegistrationError::MalformedEmoji),
    }
}

/// Reads an emoji argument, given `mention`, what the markup parser made
/// of it.
pub fn classify_emoji(arg: &str, mention: Option<(String, u64)>) -> (r: Result<EmojiArgument, RegistrationError>)
    ensures
        emoji_result_matches(
            r,
            emoji_argument(
                arg@,
                match mention {
                    Some((n, id)) => Some((n@, id)),
                    None => None,
                },
            ),
        ),
{
    match mention {
        Some((name, id)) => Ok(EmojiArgument { key: EmojiKey::Custom(id), name }),
        None => {
            let v = chars_of(arg);
            let animated = vec!['<', 'a', ':'];
            assert(animated@ == seq!['<', 'a', ':']);
            if lit_at_exec(&v, 0, &animated) {
                assert(v@.subrange(0, 3) == seq!['<', 'a', ':']);
                let c1 = find_char_exec(&v, 3, ':');
                if c1 >= v.len() {
                    return Err(RegistrationError::MalformedEmoji);
                }
                let c2 = find_char_exec(&v, c1 + 1, ':');
                let e = trim_trailing_end(&v, c1 + 1, c2, '>');
                match decimal_in(&v, c1 + 1, e) {
                    Some(id) => {
                        let name = arg.substring_char(3, c1).to_owned();
                        Ok(EmojiArgument { key: EmojiKey::Custom(id), name })
                    },
                    None => Err(RegistrationError::MalformedEmoji),
                }
            } else if !is_ascii_exec(&v) {
                Ok(EmojiArgument { key: EmojiKey::Unicode(arg.to_owned()), name: arg.to_owned() })
            } else {
                Err(RegistrationError::MalformedEmoji)
            }
        },
    }
}

/// Reads an emoji argument: custom markup (through serenity's parser where
/// it applies), animated markup, or a standard emoji's literal text.
pub fn parse_emoji_argument(arg: &str) -> (r: Result<EmojiArgument, RegistrationError>)
    ensures
        emoji_result_matches(r, emoji_argument(arg@, mention_of(arg@))),
{
    let v = chars_of(arg);
    let custom = vec!['<', ':'];
    assert(custom@ == seq!['<', ':']);
    let applies = is_ascii_exec(&v) || !lit_at_exec(&v, 0, &custom);
    assert(applies == mention_parser_applies(arg@)) by {
        assert(lit_at(v@, 0, custom@) == starts_with(arg@, seq!['<', ':']));
    }
    let mention = if applies {
        parse_emoji_mention(arg)
    } else {
        None
    };
    classify_emoji(arg, mention)
}

// ---------------------------------------------------------------- registration

/// A registration read from its arguments: the binding to upsert, and where
/// to add the emoji as a reaction so that users have something to click.
#[derive(Debug)]
pub struct Registration {
    pub binding: ReactionBinding,
    pub channel_id: u64,
    pub emoji_name: String,
}

/// Reads the arguments of a registration in tenant `tenant_id`. The emoji
/// is read first, then the role, then the message link; the first that
/// fails gives the error.
pub fn plan_registration(tenant_id: u64, emoji: &str, role: &str, link: &str) -> (r: Result<Registration, RegistrationError>)
    ensures
        match emoji_argument(emoji@, mention_of(emoji@)) {
            None => r == Err::<Registration, RegistrationError>(RegistrationError::MalformedEmoji),
            Some((key, name)) => match role_argument(role@) {
                None => r == Err::<Registration, RegistrationError>(RegistrationError::UnresolvableRole),
                Some(role_id) => match message_ref(link@) {
                    None => r == Err::<Registration, RegistrationError>(
                        RegistrationError::MalformedMessageReference,
                    ),
                    Some(m) => r matches Ok(reg) && reg.binding@ == (BindingView {
                        role_id,
                        tenant_id,
                        message_id: m.message_id,
                        emoji: key,
                    }) && reg.channel_id == m.channel_id && reg.emoji_name@ == name,
                },
            },
        },
{
    let e = parse_emoji_argument(emoji)?;
    let role_id = parse_role_argument(role)?;
    let m = parse_message_link(link)?;
    Ok(Registration {
        binding: ReactionBinding { role_id, tenant_id, message_id: m.message_id, emoji: e.key },
        channel_id: m.channel_id,
        emoji_name: e.name,
    })
}

} // verus!
