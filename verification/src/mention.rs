use vstd::prelude::*;

use crate::decimal::{
    decimal, is_digit, law_parse_reads_rendered, lemma_decimal_digits, parse_u64_spec, u64_to_decimal,
};
use crate::text::chars_of;

verus! {

/// The characters of Unicode's `White_Space` property: what `\s` stands for
/// in the mention pattern.
pub open spec fn is_white_space(c: char) -> bool {
    ||| ('\t' <= c && c <= '\r')
    ||| c == ' '
    ||| c == '\u{85}'
    ||| c == '\u{a0}'
    ||| c == '\u{1680}'
    ||| ('\u{2000}' <= c && c <= '\u{200a}')
    ||| c == '\u{2028}'
    ||| c == '\u{2029}'
    ||| c == '\u{202f}'
    ||| c == '\u{205f}'
    ||| c == '\u{3000}'
}

/// Whether `c` is a Unicode white-space character.
pub fn white_space(c: char) -> (r: bool)
    ensures
        r == is_white_space(c),
{
    ('\t' <= c && c <= '\r') || c == ' ' || c == '\u{85}' || c == '\u{a0}' || c == '\u{1680}'
        || ('\u{2000}' <= c && c <= '\u{200a}') || c == '\u{2028}' || c == '\u{2029}'
        || c == '\u{202f}' || c == '\u{205f}' || c == '\u{3000}'
}

/// The words that, after a mention of the bot, ask it for help.
pub open spec fn is_help_keyword(w: Seq<char>) -> bool {
    ||| w == "help"@
    ||| w == "commands"@
    ||| w == "toggle"@
    ||| w == "nsfw"@
    ||| w == "invite"@
    ||| w == "support"@
}

/// A mention of the user `client_id`: `<@id>`, or `<@!id>` (a nickname mention).
pub open spec fn mention_of(nickname: bool, client_id: u64) -> Seq<char> {
    seq!['<', '@'] + (if nickname { seq!['!'] } else { Seq::empty() }) + decimal(client_id as nat)
        + seq!['>']
}

/// Nothing, or one white-space character.
pub open spec fn is_optional_space(gap: Seq<char>) -> bool {
    gap.len() == 0 || (gap.len() == 1 && is_white_space(gap[0]))
}

/// A mention, an optional space and a word, one after the other.
pub open spec fn mention_text(nickname: bool, client_id: u64, gap: Seq<char>, word: Seq<char>) -> Seq<
    char,
> {
    mention_of(nickname, client_id) + gap + word
}

/// The whole message is a mention of the bot, then at most one white-space
/// character, then one of the help words: the language of the pattern
/// `^<@!?{client_id}>\s?(help|commands|toggle|nsfw|invite|support)$`.
pub open spec fn is_help_mention(text: Seq<char>, client_id: u64) -> bool {
    exists|nickname: bool, gap: Seq<char>, word: Seq<char>|
        is_optional_space(gap) && is_help_keyword(word) && text == #[trigger] mention_text(
            nickname,
            client_id,
            gap,
            word,
        )
}

/// The reply to a help mention: slash commands replace the old prefix, and
/// the invite link lets a server authorise them.
pub open spec fn help_reply(bot_invite: Seq<char>) -> Seq<char> {
    ":information_source: I use slash commands now! You can view a list of my commands by pressing the `/` key.\n> If no commands appear, you may need to reauthorize with this link: <"@
        + bot_invite + ">"@
}

/// A mention is `<@`, or `<@!` for a nickname mention, then the user's id in
/// full, then `>`: the characters between the opening and the `>` read back
/// as the id.
pub proof fn law_mention_carries_full_id(nickname: bool, client_id: u64)
    ensures
        ({
            let m = mention_of(nickname, client_id);
            let start: int = if nickname {
                3
            } else {
                2
            };
            &&& m.len() >= start + 2
            &&& m[0] == '<'
            &&& m[1] == '@'
            &&& nickname ==> m[2] == '!'
            &&& m[m.len() - 1] == '>'
            &&& parse_u64_spec(m.subrange(start, m.len() - 1)) == Some(client_id)
        }),
{
    lemma_decimal_digits(client_id as nat);
    law_parse_reads_rendered(client_id);
    let m = mention_of(nickname, client_id);
    let start: int = if nickname {
        3
    } else {
        2
    };
    assert(m.subrange(start, m.len() - 1) =~= decimal(client_id as nat));
}

/// Mentioning the bot by its full id, then a space and `help`, asks for help,
/// with or without the nickname mark.
pub proof fn law_full_id_mention_is_answered(nickname: bool, client_id: u64)
    ensures
        is_help_mention(
            seq!['<', '@'] + (if nickname {
                seq!['!']
            } else {
                Seq::empty()
            }) + decimal(client_id as nat) + seq!['>', ' '] + "help"@,
            client_id,
        ),
{
    let text = seq!['<', '@'] + (if nickname {
        seq!['!']
    } else {
        Seq::<char>::empty()
    }) + decimal(client_id as nat) + seq!['>', ' '] + "help"@;
    let gap = seq![' '];
    assert(is_white_space(' '));
    assert(is_optional_space(gap));
    assert(text =~= mention_text(nickname, client_id, gap, "help"@));
    assert(is_help_keyword("help"@));
}

/// A message that mentions someone else, by an id that reads as a different
/// number, is not a help mention for the bot.
pub proof fn law_other_id_not_answered(nickname: bool, client_id: u64, other: u64, word: Seq<char>)
    requires
        other != client_id,
    ensures
        !is_help_mention(mention_text(nickname, other, Seq::empty(), word), client_id),
{
    let text = mention_text(nickname, other, Seq::empty(), word);
    if is_help_mention(text, client_id) {
        let (b, g, w) = choose|b: bool, g: Seq<char>, w: Seq<char>|
            is_optional_space(g) && is_help_keyword(w) && text == #[trigger] mention_text(
                b,
                client_id,
                g,
                w,
            );
        lemma_mention_text_parts(text, b, client_id, g, w);
        lemma_mention_text_parts(text, nickname, other, Seq::empty(), word);
        law_mention_carries_full_id(nickname, other);
        law_mention_carries_full_id(nickname, client_id);
        lemma_decimal_digits(client_id as nat);
        lemma_decimal_digits(other as nat);
        let mo = mention_of(nickname, other);
        let mc = mention_of(nickname, client_id);
        let start: int = if nickname {
            3
        } else {
            2
        };
        // Both mentions are prefixes of the text, and each ends at its first `>`.
        let lo = mo.len() as int;
        let lc = mc.len() as int;
        assert(text.take(lo) == mo);
        assert(text.take(lc) == mc);
        if lo < lc {
            assert(mc[lo - 1] == text[lo - 1]);
            assert(mo[lo - 1] == '>');
            assert(is_digit(mc[lo - 1])) by {
                assert(mc[lo - 1] == decimal(client_id as nat)[lo - 1 - start]);
            }
        } else if lc < lo {
            assert(mo[lc - 1] == text[lc - 1]);
            assert(mc[lc - 1] == '>');
            assert(is_digit(mo[lc - 1])) by {
                assert(mo[lc - 1] == decimal(other as nat)[lc - 1 - start]);
            }
        } else {
            assert(mo =~= mc);
            assert(mo.subrange(start, lo - 1) =~= mc.subrange(start, lc - 1));
        }
    }
}

proof fn lemma_mention_text_parts(
    text: Seq<char>,
    nickname: bool,
    client_id: u64,
    gap: Seq<char>,
    word: Seq<char>,
)
    requires
        text == mention_text(nickname, client_id, gap, word),
    ensures
        text.len() >= 3,
        (text[2] == '!') == nickname,
        mention_of(nickname, client_id).len() <= text.len(),
        text.take(mention_of(nickname, client_id).len() as int) == mention_of(nickname, client_id),
        text.skip(mention_of(nickname, client_id).len() as int) == gap + word,
{
    lemma_decimal_digits(client_id as nat);
    let m = mention_of(nickname, client_id);
    assert(is_digit(decimal(client_id as nat)[0]));
    if !nickname {
        assert(text[2] == decimal(client_id as nat)[0]);
    }
    assert(text =~= m + (gap + word));
    assert(text.take(m.len() as int) =~= m);
    assert(text.skip(m.len() as int) =~= gap + word);
}

/// Whether `t`, from index `from` on, is exactly `w`.
fn rest_equals(t: &Vec<char>, from: usize, w: &Vec<char>) -> (r: bool)
    requires
        from <= t.len(),
    ensures
        r == (t@.skip(from as int) == w@),
{
    if t.len() - from != w.len() {
        assert(t@.skip(from as int).len() != w@.len());
        return false;
    }
    let mut i: usize = 0;
    while i < w.len()
        invariant
            from <= t.len(),
            t.len() - from == w.len(),
            0 <= i <= w.len(),
            forall|k: int| 0 <= k < i ==> t@[from + k] == w@[k],
        decreases w.len() - i,
    {
        if t[from + i] != w[i] {
            assert(t@.skip(from as int)[i as int] != w@[i as int]);
            return false;
        }
        i = i + 1;
    }
    assert(t@.skip(from as int) =~= w@);
    true
}

/// Whether `t`, from index `from` on, is one of the help words.
fn rest_is_help_keyword(t: &Vec<char>, from: usize) -> (r: bool)
    requires
        from <= t.len(),
    ensures
        r == is_help_keyword(t@.skip(from as int)),
{
    rest_equals(t, from, &chars_of("help")) || rest_equals(t, from, &chars_of("commands"))
        || rest_equals(t, from, &chars_of("toggle")) || rest_equals(t, from, &chars_of("nsfw"))
        || rest_equals(t, from, &chars_of("invite")) || rest_equals(t, from, &chars_of("support"))
}

/// The mention of `client_id`, with or without the nickname mark.
fn mention_chars(nickname: bool, client_id: u64) -> (v: Vec<char>)
    ensures
        v@ == mention_of(nickname, client_id),
{
    proof {
        reveal_strlit("<@");
        reveal_strlit("<@!");
        reveal_strlit(">");
    }
    let mut s = if nickname {
        String::from_str("<@!")
    } else {
        String::from_str("<@")
    };
    let id = u64_to_decimal(client_id);
    s.append(id.as_str());
    s.append(">");
    let v = chars_of(s.as_str());
    assert(v@ =~= mention_of(nickname, client_id));
    v
}

/// Whether a message asks the bot (whose user id is `client_id`) for help by
/// mentioning it.
pub fn is_help_mention_message(content: &str, client_id: u64) -> (r: bool)
    ensures
        r == is_help_mention(content@, client_id),
{
    let t = chars_of(content);
    let nickname = t.len() > 2 && t[2] == '!';
    let m = mention_chars(nickname, client_id);
    let ghost text = t@;
    if m.len() > t.len() || !rest_equals_prefix(&t, &m) {
        proof {
            if is_help_mention(text, client_id) {
                let (b, g, w) = choose|b: bool, g: Seq<char>, w: Seq<char>|
                    is_optional_space(g) && is_help_keyword(w) && text == #[trigger] mention_text(
                        b,
                        client_id,
                        g,
                        w,
                    );
                lemma_mention_text_parts(text, b, client_id, g, w);
            }
        }
        return false;
    }
    let from = m.len();
    if rest_is_help_keyword(&t, from) {
        assert(text =~= mention_text(nickname, client_id, Seq::empty(), text.skip(from as int)));
        return true;
    }
    if from < t.len() && white_space(t[from]) && rest_is_help_keyword(&t, from + 1) {
        let ghost gap = seq![t@[from as int]];
        assert(text =~= mention_text(nickname, client_id, gap, text.skip(from + 1)));
        return true;
    }
    proof {
        if is_help_mention(text, client_id) {
            let (b, g, w) = choose|b: bool, g: Seq<char>, w: Seq<char>|
                is_optional_space(g) && is_help_keyword(w) && text == #[trigger] mention_text(
                    b,
                    client_id,
                    g,
                    w,
                );
            lemma_mention_text_parts(text, b, client_id, g, w);
            if g.len() == 0 {
                assert(g + w =~= w);
            } else {
                assert((g + w)[0] == g[0]);
                assert((g + w).drop_first() =~= w);
                assert(text.skip(from + 1) =~= text.skip(from as int).drop_first());
            }
        }
    }
    false
}

/// Whether `t` begins with `m`.
fn rest_equals_prefix(t: &Vec<char>, m: &Vec<char>) -> (r: bool)
    requires
        m.len() <= t.len(),
    ensures
        r == (t@.take(m.len() as int) == m@),
{
    let mut i: usize = 0;
    while i < m.len()
        invariant
            m.len() <= t.len(),
            0 <= i <= m.len(),
            forall|k: int| 0 <= k < i ==> t@[k] == m@[k],
        decreases m.len() - i,
    {
        if t[i] != m[i] {
            assert(t@.take(m.len() as int)[i as int] != m@[i as int]);
            return false;
        }
        i = i + 1;
    }
    assert(t@.take(m.len() as int) =~= m@);
    true
}

/// The reply to a message, if it is a help mention of the bot; `None` for
/// every other message.
pub fn mention_reply(content: &str, client_id: u64, bot_invite: &str) -> (r: Option<String>)
    ensures
        r is Some <==> is_help_mention(content@, client_id),
        r matches Some(s) ==> s@ == help_reply(bot_invite@),
{
    if is_help_mention_message(content, client_id) {
        let mut s = String::from_str(
            ":information_source: I use slash commands now! You can view a list of my commands by pressing the `/` key.\n> If no commands appear, you may need to reauthorize with this link: <",
        );
        s.append(bot_invite);
        s.append(">");
        Some(s)
    } else {
        None
    }
}

} // verus!
