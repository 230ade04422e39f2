//! Hotkey triggers such as `Win+Ctrl+L`.

use crate::hotkeys::keys::{MOD_ALT, MOD_CONTROL, MOD_NOREPEAT, MOD_SHIFT, MOD_WIN};
use crate::text::{
    chars_of, lower_chars, quoted, same_chars, text_of, trim_chars, upper_chars,
};
use vstd::prelude::*;
use vstd::string::*;

verus! {

use crate::text::{lowered, trimmed, uppered};

/// A trigger resolved to a key and its modifiers.
#[derive(Clone, Copy, Debug, PartialEq, Eq, Structural)]
pub struct ParsedTrigger {
    pub register_modifiers: u32,
    pub required_modifiers: u32,
    pub key: u32,
}

/// The pieces of a text between the occurrences of a separator.
pub open spec fn split(s: Seq<char>, separator: char) -> Seq<Seq<char>>
    decreases s.len(),
{
    if s.len() == 0 {
        seq![Seq::empty()]
    } else {
        let rest = split(s.drop_last(), separator);
        if s.last() == separator {
            rest.push(Seq::empty())
        } else {
            rest.drop_last().push(rest.last().push(s.last()))
        }
    }
}

proof fn lemma_split_not_empty(s: Seq<char>, separator: char)
    ensures
        split(s, separator).len() > 0,
    decreases s.len(),
{
    if s.len() > 0 {
        lemma_split_not_empty(s.drop_last(), separator);
    }
}

/// The pieces that hold more than white space, without the white space round them.
pub open spec fn tokens_of(pieces: Seq<Seq<char>>) -> Seq<Seq<char>>
    decreases pieces.len(),
{
    if pieces.len() == 0 {
        Seq::empty()
    } else {
        let rest = tokens_of(pieces.drop_last());
        let token = trimmed(pieces.last());
        if token.len() == 0 {
            rest
        } else {
            rest.push(token)
        }
    }
}

/// The tokens of a trigger.
pub open spec fn trigger_tokens(trigger: Seq<char>) -> Seq<Seq<char>> {
    tokens_of(split(trigger, '+'))
}

/// The modifier that a token names, in any mix of cases; 0 where it names none.
pub open spec fn modifier_of(token: Seq<char>) -> u32 {
    let word = lowered(token);
    if word == "alt"@ {
        MOD_ALT
    } else if word == "ctrl"@ || word == "control"@ {
        MOD_CONTROL
    } else if word == "shift"@ {
        MOD_SHIFT
    } else if word == "win"@ || word == "windows"@ {
        MOD_WIN
    } else {
        0
    }
}

/// The tokens that name no modifier.
pub open spec fn key_tokens(tokens: Seq<Seq<char>>) -> Seq<Seq<char>>
    decreases tokens.len(),
{
    if tokens.len() == 0 {
        Seq::empty()
    } else {
        let rest = key_tokens(tokens.drop_last());
        if modifier_of(tokens.last()) == 0 {
            rest.push(tokens.last())
        } else {
            rest
        }
    }
}

pub open spec fn names_modifier(tokens: Seq<Seq<char>>, modifier: u32) -> bool {
    exists|i: int| 0 <= i < tokens.len() && modifier_of(#[trigger] tokens[i]) == modifier
}

/// The mask of all modifiers that the tokens name.
pub open spec fn mask_of(tokens: Seq<Seq<char>>) -> u32 {
    ((if names_modifier(tokens, MOD_ALT) {
        MOD_ALT as int
    } else {
        0
    }) + (if names_modifier(tokens, MOD_CONTROL) {
        MOD_CONTROL as int
    } else {
        0
    }) + (if names_modifier(tokens, MOD_SHIFT) {
        MOD_SHIFT as int
    } else {
        0
    }) + (if names_modifier(tokens, MOD_WIN) {
        MOD_WIN as int
    } else {
        0
    })) as u32
}

/// The keys that have a name of several letters.
pub open spec fn named_key(word: Seq<char>) -> Option<u32> {
    if word == "SPACE"@ {
        Some(0x20u32)
    } else if word == "TAB"@ {
        Some(0x09u32)
    } else if word == "ENTER"@ {
        Some(0x0du32)
    } else if word == "ESC"@ || word == "ESCAPE"@ {
        Some(0x1bu32)
    } else if word == "BACKSPACE"@ {
        Some(0x08u32)
    } else if word == "DELETE"@ || word == "DEL"@ {
        Some(0x2eu32)
    } else if word == "HOME"@ {
        Some(0x24u32)
    } else if word == "END"@ {
        Some(0x23u32)
    } else if word == "PAGEUP"@ || word == "PGUP"@ {
        Some(0x21u32)
    } else if word == "PAGEDOWN"@ || word == "PGDN"@ {
        Some(0x22u32)
    } else if word == "LEFT"@ {
        Some(0x25u32)
    } else if word == "UP"@ {
        Some(0x26u32)
    } else if word == "RIGHT"@ {
        Some(0x27u32)
    } else if word == "DOWN"@ {
        Some(0x28u32)
    } else {
        None
    }
}

pub open spec fn all_digits(s: Seq<char>) -> bool {
    forall|i: int| 0 <= i < s.len() ==> '0' <= #[trigger] s[i] <= '9'
}

/// The value of a sequence of decimal digits.
pub open spec fn digits_value(s: Seq<char>) -> nat
    decreases s.len(),
{
    if s.len() == 0 {
        0
    } else {
        digits_value(s.drop_last()) * 10 + (s.last() as u32 - 48) as nat
    }
}

/// A text without the letters `F` that it starts with.
pub open spec fn without_leading_f(s: Seq<char>) -> Seq<char>
    decreases s.len(),
{
    if s.len() > 0 && s[0] == 'F' {
        without_leading_f(s.skip(1))
    } else {
        s
    }
}

/// The number that a function key's word holds behind its `F`: digits, which a plus sign
/// may precede.
pub open spec fn function_key_digits(word: Seq<char>) -> Seq<char> {
    let suffix = without_leading_f(word);
    if suffix.len() > 0 && suffix[0] == '+' {
        suffix.skip(1)
    } else {
        suffix
    }
}

/// The function keys `F1` to `F24`.
pub open spec fn function_key(word: Seq<char>) -> Option<u32> {
    let digits = function_key_digits(word);
    if word.len() > 0 && word[0] == 'F' && digits.len() > 0 && all_digits(digits) && 1
        <= digits_value(digits) <= 24 {
        Some((0x70 + digits_value(digits) - 1) as u32)
    } else {
        None
    }
}

/// A letter or a digit, whose key has its own code.
pub open spec fn single_key(word: Seq<char>) -> Option<u32> {
    if word.len() == 1 && ('A' <= word[0] <= 'Z' || '0' <= word[0] <= '9') {
        Some(word[0] as u32)
    } else {
        None
    }
}

/// The virtual key that a token names.
pub open spec fn virtual_key(token: Seq<char>) -> Option<u32> {
    let word = uppered(trimmed(token));
    if single_key(word) is Some {
        single_key(word)
    } else if named_key(word) is Some {
        named_key(word)
    } else {
        function_key(word)
    }
}

pub open spec fn unsupported_key(token: Seq<char>) -> Seq<char> {
    "unsupported hotkey key token '"@ + token + "'"@
}

fn same_word(word: &Vec<char>, literal: &str) -> (r: bool)
    ensures
        r == (word@ == literal@),
{
    same_chars(word, &chars_of(literal))
}

fn lookup_named_key(word: &Vec<char>) -> (r: Option<u32>)
    ensures
        r == named_key(word@),
{
    if same_word(word, "SPACE") {
        Some(0x20)
    } else if same_word(word, "TAB") {
        Some(0x09)
    } else if same_word(word, "ENTER") {
        Some(0x0d)
    } else if same_word(word, "ESC") || same_word(word, "ESCAPE") {
        Some(0x1b)
    } else if same_word(word, "BACKSPACE") {
        Some(0x08)
    } else if same_word(word, "DELETE") || same_word(word, "DEL") {
        Some(0x2e)
    } else if same_word(word, "HOME") {
        Some(0x24)
    } else if same_word(word, "END") {
        Some(0x23)
    } else if same_word(word, "PAGEUP") || same_word(word, "PGUP") {
        Some(0x21)
    } else if same_word(word, "PAGEDOWN") || same_word(word, "PGDN") {
        Some(0x22)
    } else if same_word(word, "LEFT") {
        Some(0x25)
    } else if same_word(word, "UP") {
        Some(0x26)
    } else if same_word(word, "RIGHT") {
        Some(0x27)
    } else if same_word(word, "DOWN") {
        Some(0x28)
    } else {
        None
    }
}

/// The value of the digits from an index on; `None` where there are none, where another
/// character stands among them, or where the value is above `limit`.
fn parse_digits(word: &Vec<char>, from: usize, limit: u32) -> (r: Option<u32>)
    requires
        from <= word.len(),
        limit <= 1000,
    ensures
        ({
            let digits = word@.skip(from as int);
            match r {
                Some(v) => digits.len() > 0 && all_digits(digits) && digits_value(digits) == v && v
                    <= limit,
                None => digits.len() == 0 || !all_digits(digits) || digits_value(digits) > limit,
            }
        }),
{
    let ghost digits = word@.skip(from as int);
    if from == word.len() {
        return None;
    }
    let mut value: u32 = 0;
    let mut over: bool = false;
    let mut i: usize = from;
    assert(digits.take(0) =~= Seq::empty());
    while i < word.len()
        invariant
            from <= i <= word.len(),
            limit <= 1000,
            digits == word@.skip(from as int),
            all_digits(digits.take(i - from)),
            over <==> digits_value(digits.take(i - from)) > limit,
            !over ==> value == digits_value(digits.take(i - from)),
        decreases word.len() - i,
    {
        let c: char = word[i];
        let ghost before = digits.take(i - from);
        let ghost now = digits.take(i - from + 1);
        assert(now.drop_last() =~= before);
        assert(now.last() == c);
        if !('0' <= c && c <= '9') {
            assert(digits[i - from] == c);
            assert(!all_digits(digits));
            return None;
        }
        assert(all_digits(now)) by {
            assert forall|j: int| 0 <= j < now.len() implies '0' <= #[trigger] now[j] <= '9' by {
                if j < before.len() {
                    assert(before[j] == now[j]);
                }
            }
        }
        if !over {
            value = value * 10 + (c as u32 - 48);
            if value > limit {
                over = true;
            }
        }
        i = i + 1;
    }
    assert(digits.take(digits.len() as int) =~= digits);
    if over {
        None
    } else {
        Some(value)
    }
}

fn lookup_function_key(word: &Vec<char>) -> (r: Option<u32>)
    ensures
        r == function_key(word@),
{
    if word.len() == 0 || word[0] != 'F' {
        return None;
    }
    let mut from: usize = 0;
    assert(word@.skip(0) =~= word@);
    while from < word.len() && word[from] == 'F'
        invariant
            from <= word.len(),
            without_leading_f(word@.skip(from as int)) == without_leading_f(word@),
        decreases word.len() - from,
    {
        assert(word@.skip(from as int).skip(1) =~= word@.skip(from + 1));
        from = from + 1;
    }
    let ghost suffix = word@.skip(from as int);
    if from < word.len() && word[from] == '+' {
        assert(suffix.skip(1) =~= word@.skip(from + 1));
        from = from + 1;
    }
    match parse_digits(word, from, 24) {
        Some(number) => if number >= 1 {
            Some(0x70 + number - 1)
        } else {
            None
        },
        None => None,
    }
}

/// The virtual key that a token names, or why it names none.
pub fn resolve_virtual_key(token: &str) -> (r: Result<u32, String>)
    ensures
        match r {
            Ok(key) => virtual_key(token@) == Some(key),
            Err(message) => virtual_key(token@) is None && message@ == unsupported_key(token@),
        },
{
    let word: Vec<char> = upper_chars(&trim_chars(&chars_of(token)));
    if word.len() == 1 {
        let c: char = word[0];
        if ('A' <= c && c <= 'Z') || ('0' <= c && c <= '9') {
            return Ok(c as u32);
        }
    }
    if let Some(key) = lookup_named_key(&word) {
        return Ok(key);
    }
    if let Some(key) = lookup_function_key(&word) {
        return Ok(key);
    }
    Err(quoted("unsupported hotkey key token '", token, "'"))
}

fn split_tokens(chars: &Vec<char>) -> (r: Vec<Vec<char>>)
    ensures
        views(r@) == trigger_tokens(chars@),
{
    let mut tokens: Vec<Vec<char>> = Vec::new();
    let mut piece: Vec<char> = Vec::new();
    let mut i: usize = 0;
    proof {
        assert(chars@.take(0) =~= Seq::empty());
        assert(split(Seq::empty(), '+').drop_last() =~= Seq::empty());
    }
    while i < chars.len()
        invariant
            i <= chars.len(),
            views(tokens@) == tokens_of(split(chars@.take(i as int), '+').drop_last()),
            piece@ == split(chars@.take(i as int), '+').last(),
        decreases chars.len() - i,
    {
        let ghost before = split(chars@.take(i as int), '+');
        proof {
            lemma_split_not_empty(chars@.take(i as int), '+');
            assert(chars@.take(i + 1).drop_last() =~= chars@.take(i as int));
        }
        if chars[i] == '+' {
            let token: Vec<char> = trim_chars(&piece);
            assert(before.push(Seq::empty()).drop_last() =~= before);
            if token.len() > 0 {
                let ghost old_tokens = views(tokens@);
                tokens.push(token);
                assert(views(tokens@) =~= old_tokens.push(token@));
            }
            piece = Vec::new();
        } else {
            piece.push(chars[i]);
            assert(before.drop_last().push(piece@).drop_last() =~= before.drop_last());
        }
        i = i + 1;
    }
    proof {
        assert(chars@.take(chars@.len() as int) =~= chars@);
        lemma_split_not_empty(chars@, '+');
    }
    let token: Vec<char> = trim_chars(&piece);
    if token.len() > 0 {
        let ghost old_tokens = views(tokens@);
        tokens.push(token);
        assert(views(tokens@) =~= old_tokens.push(token@));
    }
    tokens
}

/// The characters of each of a sequence of words.
pub open spec fn views(words: Seq<Vec<char>>) -> Seq<Seq<char>> {
    words.map_values(|word: Vec<char>| word@)
}

fn lookup_modifier(token: &Vec<char>) -> (r: u32)
    ensures
        r == modifier_of(token@),
{
    let word: Vec<char> = lower_chars(token);
    if same_word(&word, "alt") {
        MOD_ALT
    } else if same_word(&word, "ctrl") || same_word(&word, "control") {
        MOD_CONTROL
    } else if same_word(&word, "shift") {
        MOD_SHIFT
    } else if same_word(&word, "win") || same_word(&word, "windows") {
        MOD_WIN
    } else {
        0
    }
}

/// What a trigger means, or why it means nothing.
pub open spec fn parsed_trigger(trigger: Seq<char>) -> Result<ParsedTrigger, Seq<char>> {
    let tokens = trigger_tokens(trigger);
    let keys = key_tokens(tokens);
    if tokens.len() == 0 {
        Err("empty hotkey trigger"@)
    } else if keys.len() > 1 {
        Err(
            "hotkey trigger '"@ + trigger + "' contains more than one non-modifier token"@,
        )
    } else if keys.len() == 0 {
        Err("hotkey trigger '"@ + trigger + "' does not contain a key"@)
    } else {
        match virtual_key(keys[0]) {
            Some(key) => Ok(
                ParsedTrigger {
                    register_modifiers: (mask_of(tokens) + MOD_NOREPEAT) as u32,
                    required_modifiers: mask_of(tokens),
                    key,
                },
            ),
            None => Err(unsupported_key(keys[0])),
        }
    }
}

proof fn lemma_key_tokens_grow(tokens: Seq<Seq<char>>, n: int)
    requires
        0 <= n <= tokens.len(),
    ensures
        key_tokens(tokens.take(n)).len() <= key_tokens(tokens).len(),
    decreases tokens.len(),
{
    if n < tokens.len() {
        lemma_key_tokens_grow(tokens.drop_last(), n);
        assert(tokens.drop_last().take(n) =~= tokens.take(n));
    } else {
        assert(tokens.take(n) =~= tokens);
    }
}

/// Parses a trigger: modifiers and exactly one key, joined by plus signs.
pub fn parse_trigger(trigger: &str) -> (r: Result<ParsedTrigger, String>)
    ensures
        match r {
            Ok(parsed) => parsed_trigger(trigger@) == Ok::<ParsedTrigger, Seq<char>>(parsed),
            Err(message) => parsed_trigger(trigger@) == Err::<ParsedTrigger, Seq<char>>(message@),
        },
{
    let tokens: Vec<Vec<char>> = split_tokens(&chars_of(trigger));
    let ghost all = views(tokens@);
    if tokens.len() == 0 {
        return Err("empty hotkey trigger".to_owned());
    }
    let mut alt: bool = false;
    let mut control: bool = false;
    let mut shift: bool = false;
    let mut win: bool = false;
    let mut key_token: Option<usize> = None;
    let mut i: usize = 0;
    assert(all.take(0) =~= Seq::empty());
    while i < tokens.len()
        invariant
            i <= tokens.len(),
            all == views(tokens@),
            all == trigger_tokens(trigger@),
            tokens.len() > 0,
            alt == names_modifier(all.take(i as int), MOD_ALT),
            control == names_modifier(all.take(i as int), MOD_CONTROL),
            shift == names_modifier(all.take(i as int), MOD_SHIFT),
            win == names_modifier(all.take(i as int), MOD_WIN),
            match key_token {
                Some(at) => at < i && key_tokens(all.take(i as int)) == seq![all[at as int]],
                None => key_tokens(all.take(i as int)).len() == 0,
            },
        decreases tokens.len() - i,
    {
        let ghost before = all.take(i as int);
        let ghost now = all.take(i + 1);
        proof {
            assert(now.drop_last() =~= before);
            assert(now.last() == all[i as int]);
            assert(all[i as int] == tokens@[i as int]@);
            lemma_names_modifier_step(before, all[i as int], MOD_ALT);
            lemma_names_modifier_step(before, all[i as int], MOD_CONTROL);
            lemma_names_modifier_step(before, all[i as int], MOD_SHIFT);
            lemma_names_modifier_step(before, all[i as int], MOD_WIN);
            assert(now =~= before.push(all[i as int]));
        }
        let modifier: u32 = lookup_modifier(&tokens[i]);
        if modifier == MOD_ALT {
            alt = true;
        } else if modifier == MOD_CONTROL {
            control = true;
        } else if modifier == MOD_SHIFT {
            shift = true;
        } else if modifier == MOD_WIN {
            win = true;
        } else {
            if key_token.is_some() {
                proof {
                    assert(key_tokens(now).len() == 2);
                    lemma_key_tokens_grow(all, i + 1);
                }
                return Err(
                    quoted(
                        "hotkey trigger '",
                        trigger,
                        "' contains more than one non-modifier token",
                    ),
                );
            }
            key_token = Some(i);
            assert(key_tokens(now) =~= seq![all[i as int]]);
        }
        i = i + 1;
    }
    assert(all.take(all.len() as int) =~= all);
    let at: usize = match key_token {
        Some(at) => at,
        None => {
            return Err(quoted("hotkey trigger '", trigger, "' does not contain a key"));
        },
    };
    let required: u32 = (if alt {
        MOD_ALT
    } else {
        0
    }) + (if control {
        MOD_CONTROL
    } else {
        0
    }) + (if shift {
        MOD_SHIFT
    } else {
        0
    }) + (if win {
        MOD_WIN
    } else {
        0
    });
    let token: String = text_of(&tokens[at]);
    match resolve_virtual_key(token.as_str()) {
        Ok(key) => Ok(
            ParsedTrigger {
                register_modifiers: required + MOD_NOREPEAT,
                required_modifiers: required,
                key,
            },
        ),
        Err(message) => Err(message),
    }
}

proof fn lemma_names_modifier_step(before: Seq<Seq<char>>, token: Seq<char>, modifier: u32)
    ensures
        names_modifier(before.push(token), modifier) <==> names_modifier(before, modifier)
            || modifier_of(token) == modifier,
{
    let now = before.push(token);
    if names_modifier(before, modifier) {
        let i = choose|i: int|
            0 <= i < before.len() && modifier_of(#[trigger] before[i]) == modifier;
        assert(now[i] == before[i]);
    }
    if modifier_of(token) == modifier {
        assert(now[before.len() as int] == token);
    }
    if names_modifier(now, modifier) {
        let i = choose|i: int| 0 <= i < now.len() && modifier_of(#[trigger] now[i]) == modifier;
        if i < before.len() {
            assert(before[i] == now[i]);
        }
    }
}

/// Each modifier is required exactly where some token names it, in any case and whatever the
/// other tokens are. To register the hotkey, only the flag against repetition is added.
pub proof fn law_named_modifiers_are_required(trigger: Seq<char>)
    requires
        parsed_trigger(trigger) is Ok,
    ensures
        ({
            let parsed = parsed_trigger(trigger)->Ok_0;
            let tokens = trigger_tokens(trigger);
            let required = parsed.required_modifiers;
            &&& required & 0x1 != 0 <==> exists|i: int|
                0 <= i < tokens.len() && lowered(#[trigger] tokens[i]) == "alt"@
            &&& required & 0x2 != 0 <==> exists|i: int|
                0 <= i < tokens.len() && (lowered(#[trigger] tokens[i]) == "ctrl"@ || lowered(
                    tokens[i],
                ) == "control"@)
            &&& required & 0x4 != 0 <==> exists|i: int|
                0 <= i < tokens.len() && lowered(#[trigger] tokens[i]) == "shift"@
            &&& required & 0x8 != 0 <==> exists|i: int|
                0 <= i < tokens.len() && (lowered(#[trigger] tokens[i]) == "win"@ || lowered(
                    tokens[i],
                ) == "windows"@)
            &&& required < 0x10
            &&& parsed.register_modifiers == required | 0x4000
        }),
{
    lemma_modifier_words();
    let tokens = trigger_tokens(trigger);
    let required = (parsed_trigger(trigger)->Ok_0).required_modifiers;
    assert forall|i: int| 0 <= i < tokens.len() implies {
        let word = lowered(#[trigger] tokens[i]);
        &&& word == "alt"@ <==> modifier_of(tokens[i]) == MOD_ALT
        &&& word == "ctrl"@ || word == "control"@ <==> modifier_of(tokens[i]) == MOD_CONTROL
        &&& word == "shift"@ <==> modifier_of(tokens[i]) == MOD_SHIFT
        &&& word == "win"@ || word == "windows"@ <==> modifier_of(tokens[i]) == MOD_WIN
    } by {}
    assert(names_modifier(tokens, MOD_ALT) <==> exists|i: int|
        0 <= i < tokens.len() && lowered(#[trigger] tokens[i]) == "alt"@);
    assert(names_modifier(tokens, MOD_CONTROL) <==> exists|i: int|
        0 <= i < tokens.len() && (lowered(#[trigger] tokens[i]) == "ctrl"@ || lowered(tokens[i])
            == "control"@));
    assert(names_modifier(tokens, MOD_SHIFT) <==> exists|i: int|
        0 <= i < tokens.len() && lowered(#[trigger] tokens[i]) == "shift"@);
    assert(names_modifier(tokens, MOD_WIN) <==> exists|i: int|
        0 <= i < tokens.len() && (lowered(#[trigger] tokens[i]) == "win"@ || lowered(tokens[i])
            == "windows"@));
    assert((required & 0x1 != 0) == (required % 2 == 1)) by (bit_vector);
    assert((required & 0x2 != 0) == ((required / 2) % 2 == 1)) by (bit_vector);
    assert((required & 0x4 != 0) == ((required / 4) % 2 == 1)) by (bit_vector);
    assert((required & 0x8 != 0) == ((required / 8) % 2 == 1)) by (bit_vector);
    assert(required < 0x10 ==> required | 0x4000 == required + 0x4000) by (bit_vector);
}

/// No word names two modifiers.
proof fn lemma_modifier_words()
    ensures
        "alt"@ != "ctrl"@ && "alt"@ != "control"@ && "alt"@ != "shift"@ && "alt"@ != "win"@ && "alt"@
            != "windows"@,
        "ctrl"@ != "shift"@ && "ctrl"@ != "win"@ && "ctrl"@ != "windows"@,
        "control"@ != "shift"@ && "control"@ != "win"@ && "control"@ != "windows"@,
        "shift"@ != "win"@ && "shift"@ != "windows"@,
{
    reveal_strlit("alt");
    reveal_strlit("ctrl");
    reveal_strlit("control");
    reveal_strlit("shift");
    reveal_strlit("win");
    reveal_strlit("windows");
    assert("alt"@[0] == 'a' && "ctrl"@[0] == 'c' && "control"@[0] == 'c' && "shift"@[0] == 's'
        && "win"@[0] == 'w' && "windows"@[0] == 'w');
}

proof fn lemma_split_joins(first: Seq<char>, second: Seq<char>, separator: char)
    ensures
        split(first.push(separator) + second, separator) == split(first, separator) + split(
            second,
            separator,
        ),
    decreases second.len(),
{
    let whole = first.push(separator) + second;
    lemma_split_not_empty(first, separator);
    if second.len() == 0 {
        assert(whole.drop_last() =~= first);
        assert(whole.last() == separator);
        assert(split(whole, separator) =~= split(first, separator) + split(second, separator));
    } else {
        let rest = second.drop_last();
        assert(whole.drop_last() =~= first.push(separator) + rest);
        assert(whole.last() == second.last());
        lemma_split_joins(first, rest, separator);
        lemma_split_not_empty(rest, separator);
        assert(split(whole, separator) =~= split(first, separator) + split(second, separator));
    }
}

proof fn lemma_tokens_join(first: Seq<Seq<char>>, second: Seq<Seq<char>>)
    ensures
        tokens_of(first + second) == tokens_of(first) + tokens_of(second),
    decreases second.len(),
{
    if second.len() == 0 {
        assert(first + second =~= first);
        assert(tokens_of(first) + Seq::<Seq<char>>::empty() =~= tokens_of(first));
    } else {
        assert((first + second).drop_last() =~= first + second.drop_last());
        lemma_tokens_join(first, second.drop_last());
        assert(tokens_of(first + second) =~= tokens_of(first) + tokens_of(second));
    }
}

proof fn lemma_split_without_separator(piece: Seq<char>, separator: char)
    requires
        !piece.contains(separator),
    ensures
        split(piece, separator) == seq![piece],
    decreases piece.len(),
{
    if piece.len() > 0 {
        let rest = piece.drop_last();
        assert(piece[piece.len() - 1] != separator) by {
            if piece[piece.len() - 1] == separator {
                assert(piece.contains(separator));
            }
        }
        assert(!rest.contains(separator)) by {
            if rest.contains(separator) {
                let i = choose|i: int| 0 <= i < rest.len() && rest[i] == separator;
                assert(piece[i] == separator);
            }
        }
        lemma_split_without_separator(rest, separator);
        assert(rest.push(piece.last()) =~= piece);
        assert(split(piece, separator) =~= seq![piece]);
    } else {
        assert(piece =~= Seq::empty());
        assert(split(piece, separator) =~= seq![piece]);
    }
}

/// A plus sign parts the tokens before it from those behind it; a stretch without one is a
/// token, without the white space round it, unless there is nothing else.
pub proof fn law_plus_signs_part_the_tokens(first: Seq<char>, second: Seq<char>, piece: Seq<char>)
    requires
        !piece.contains('+'),
    ensures
        trigger_tokens(first.push('+') + second) == trigger_tokens(first) + trigger_tokens(second),
        trigger_tokens(piece) == (if trimmed(piece).len() == 0 {
            Seq::empty()
        } else {
            seq![trimmed(piece)]
        }),
{
    lemma_split_joins(first, second, '+');
    lemma_tokens_join(split(first, '+'), split(second, '+'));
    lemma_split_without_separator(piece, '+');
    let alone = seq![piece];
    assert(tokens_of(alone.drop_last()).len() == 0);
    assert(alone.last() == piece);
    assert(tokens_of(alone) =~= trigger_tokens(piece));
    if trimmed(piece).len() == 0 {
        assert(trigger_tokens(piece) =~= Seq::empty());
    } else {
        assert(trigger_tokens(piece) =~= seq![trimmed(piece)]);
    }
}

/// Whether a token is one of the words for modifiers.
pub open spec fn is_modifier_word(token: Seq<char>) -> bool {
    let word = lowered(token);
    word == "alt"@ || word == "ctrl"@ || word == "control"@ || word == "shift"@ || word == "win"@
        || word == "windows"@
}

proof fn lemma_single_key_token(tokens: Seq<Seq<char>>, at: int)
    requires
        0 <= at < tokens.len(),
        !is_modifier_word(tokens[at]),
        forall|i: int| 0 <= i < tokens.len() && i != at ==> is_modifier_word(#[trigger] tokens[i]),
    ensures
        key_tokens(tokens) == seq![tokens[at]],
    decreases tokens.len(),
{
    let rest = tokens.drop_last();
    if at == tokens.len() - 1 {
        assert forall|i: int| 0 <= i < rest.len() implies is_modifier_word(#[trigger] rest[i]) by {
            assert(is_modifier_word(tokens[i]));
        }
        lemma_no_key_token(rest);
        assert(key_tokens(tokens) =~= seq![tokens[at]]);
    } else {
        assert forall|i: int| 0 <= i < rest.len() && i != at implies is_modifier_word(
            #[trigger] rest[i],
        ) by {
            assert(is_modifier_word(tokens[i]));
        }
        assert(is_modifier_word(tokens[tokens.len() - 1]));
        lemma_single_key_token(rest, at);
    }
}

proof fn lemma_no_key_token(tokens: Seq<Seq<char>>)
    requires
        forall|i: int| 0 <= i < tokens.len() ==> is_modifier_word(#[trigger] tokens[i]),
    ensures
        key_tokens(tokens).len() == 0,
    decreases tokens.len(),
{
    if tokens.len() > 0 {
        let rest = tokens.drop_last();
        assert forall|i: int| 0 <= i < rest.len() implies is_modifier_word(#[trigger] rest[i]) by {
            assert(is_modifier_word(tokens[i]));
        }
        assert(is_modifier_word(tokens[tokens.len() - 1]));
        lemma_no_key_token(rest);
    }
}

proof fn lemma_two_key_tokens(tokens: Seq<Seq<char>>, a: int, b: int)
    requires
        0 <= a < b < tokens.len(),
        !is_modifier_word(tokens[a]),
        !is_modifier_word(tokens[b]),
    ensures
        key_tokens(tokens).len() > 1,
{
    let upto = tokens.take(b + 1);
    assert(upto.drop_last() =~= tokens.take(b));
    assert(tokens.take(a + 1).drop_last() =~= tokens.take(a));
    assert(tokens.take(a + 1).last() == tokens[a]);
    assert(upto.last() == tokens[b]);
    assert(key_tokens(tokens.take(a + 1)).len() >= 1);
    lemma_key_tokens_grow(tokens.take(b), a + 1);
    assert(tokens.take(b).take(a + 1) =~= tokens.take(a + 1));
    lemma_key_tokens_grow(tokens, b + 1);
}

/// A trigger needs exactly one token that is no modifier, and that one has to name a key: its
/// key is the trigger's. Each other trigger is refused, with the reason.
pub proof fn law_triggers_have_one_key(trigger: Seq<char>, a: int, b: int)
    ensures
        ({
            let tokens = trigger_tokens(trigger);
            &&& tokens.len() == 0 ==> parsed_trigger(trigger) == Err::<ParsedTrigger, Seq<char>>(
                "empty hotkey trigger"@,
            )
            &&& tokens.len() > 0 && (forall|i: int|
                0 <= i < tokens.len() ==> is_modifier_word(#[trigger] tokens[i]))
                ==> parsed_trigger(trigger) == Err::<ParsedTrigger, Seq<char>>(
                "hotkey trigger '"@ + trigger + "' does not contain a key"@,
            )
            &&& 0 <= a < b < tokens.len() && !is_modifier_word(tokens[a]) && !is_modifier_word(
                tokens[b],
            ) ==> parsed_trigger(trigger) == Err::<ParsedTrigger, Seq<char>>(
                "hotkey trigger '"@ + trigger + "' contains more than one non-modifier token"@,
            )
            &&& 0 <= a < tokens.len() && !is_modifier_word(tokens[a]) && (forall|i: int|
                0 <= i < tokens.len() && i != a ==> is_modifier_word(#[trigger] tokens[i])) ==> {
                &&& virtual_key(tokens[a]) matches Some(key) ==> parsed_trigger(
                    trigger,
                ) matches Ok(parsed) && parsed.key == key
                &&& virtual_key(tokens[a]) is None ==> parsed_trigger(trigger) == Err::<
                    ParsedTrigger,
                    Seq<char>,
                >("unsupported hotkey key token '"@ + tokens[a] + "'"@)
            }
        }),
{
    let tokens = trigger_tokens(trigger);
    lemma_modifier_words();
    if forall|i: int| 0 <= i < tokens.len() ==> is_modifier_word(#[trigger] tokens[i]) {
        lemma_no_key_token(tokens);
    }
    if 0 <= a < b < tokens.len() && !is_modifier_word(tokens[a]) && !is_modifier_word(tokens[b]) {
        lemma_two_key_tokens(tokens, a, b);
    }
    if 0 <= a < tokens.len() && !is_modifier_word(tokens[a]) && (forall|i: int|
        0 <= i < tokens.len() && i != a ==> is_modifier_word(#[trigger] tokens[i])) {
        lemma_single_key_token(tokens, a);
    }
}

proof fn lemma_key_words()
    ensures
        "SPACE"@.len() == 5 && "TAB"@.len() == 3 && "ENTER"@.len() == 5 && "ESC"@.len() == 3
            && "ESCAPE"@.len() == 6 && "BACKSPACE"@.len() == 9 && "DELETE"@.len() == 6
            && "DEL"@.len() == 3 && "HOME"@.len() == 4 && "END"@.len() == 3 && "PAGEUP"@.len() == 6
            && "PGUP"@.len() == 4 && "PAGEDOWN"@.len() == 8 && "PGDN"@.len() == 4 && "LEFT"@.len()
            == 4 && "UP"@.len() == 2 && "RIGHT"@.len() == 5 && "DOWN"@.len() == 4,
        "SPACE"@[0] == 'S' && "ENTER"@[0] == 'E' && "RIGHT"@[0] == 'R',
        "TAB"@[0] == 'T' && "ESC"@[0] == 'E' && "DEL"@[0] == 'D' && "END"@[0] == 'E',
        "ESC"@[1] == 'S' && "END"@[1] == 'N',
        "ESCAPE"@[0] == 'E' && "DELETE"@[0] == 'D' && "PAGEUP"@[0] == 'P',
        "HOME"@[0] == 'H' && "PGUP"@[0] == 'P' && "PGDN"@[0] == 'P' && "LEFT"@[0] == 'L'
            && "DOWN"@[0] == 'D',
        "PGUP"@[2] == 'U' && "PGDN"@[2] == 'D',
        "BACKSPACE"@[0] == 'B' && "PAGEDOWN"@[0] == 'P' && "UP"@[0] == 'U',
{
    reveal_strlit("SPACE");
    reveal_strlit("TAB");
    reveal_strlit("ENTER");
    reveal_strlit("ESC");
    reveal_strlit("ESCAPE");
    reveal_strlit("BACKSPACE");
    reveal_strlit("DELETE");
    reveal_strlit("DEL");
    reveal_strlit("HOME");
    reveal_strlit("END");
    reveal_strlit("PAGEUP");
    reveal_strlit("PGUP");
    reveal_strlit("PAGEDOWN");
    reveal_strlit("PGDN");
    reveal_strlit("LEFT");
    reveal_strlit("UP");
    reveal_strlit("RIGHT");
    reveal_strlit("DOWN");
}

/// Which key a word names: a letter or a digit its own, `F1` to `F24` the function keys in their
/// order, and the keys with names theirs. Upper and lower case and white space round the word
/// make no difference.
pub proof fn law_words_name_their_keys(token: Seq<char>)
    ensures
        ({
            let word = uppered(trimmed(token));
            let key = virtual_key(token);
            &&& word.len() == 1 && 'A' <= word[0] <= 'Z' ==> key == Some(
                (0x41 + (word[0] as u32 - 'A' as u32)) as u32,
            )
            &&& word.len() == 1 && '0' <= word[0] <= '9' ==> key == Some(
                (0x30 + (word[0] as u32 - '0' as u32)) as u32,
            )
            &&& word.len() == 0 ==> key is None
            &&& word == "SPACE"@ <==> key == Some(0x20u32)
            &&& word == "TAB"@ <==> key == Some(0x09u32)
            &&& word == "ENTER"@ <==> key == Some(0x0du32)
            &&& word == "ESC"@ || word == "ESCAPE"@ <==> key == Some(0x1bu32)
            &&& word == "BACKSPACE"@ <==> key == Some(0x08u32)
            &&& word == "DELETE"@ || word == "DEL"@ <==> key == Some(0x2eu32)
            &&& word == "HOME"@ <==> key == Some(0x24u32)
            &&& word == "END"@ <==> key == Some(0x23u32)
            &&& word == "PAGEUP"@ || word == "PGUP"@ <==> key == Some(0x21u32)
            &&& word == "PAGEDOWN"@ || word == "PGDN"@ <==> key == Some(0x22u32)
            &&& word == "LEFT"@ <==> key == Some(0x25u32)
            &&& word == "UP"@ <==> key == Some(0x26u32)
            &&& word == "RIGHT"@ <==> key == Some(0x27u32)
            &&& word == "DOWN"@ <==> key == Some(0x28u32)
            &&& word.len() == 2 && word[0] == 'F' && '1' <= word[1] <= '9' ==> key == Some(
                (0x70 + (word[1] as u32 - '1' as u32)) as u32,
            )
            &&& word.len() == 3 && word[0] == 'F' && word[1] == '1' && '0' <= word[2] <= '9' ==> key
                == Some((0x79 + (word[2] as u32 - '0' as u32)) as u32)
            &&& word.len() == 3 && word[0] == 'F' && word[1] == '2' && '0' <= word[2] <= '4' ==> key
                == Some((0x83 + (word[2] as u32 - '0' as u32)) as u32)
            &&& key matches Some(code) ==> word.len() == 1 || named_key(word) is Some || (word[0]
                == 'F' && 0x70 <= code <= 0x87)
        }),
{
    let word = uppered(trimmed(token));
    lemma_key_words();
    reveal_with_fuel(without_leading_f, 2);
    reveal_with_fuel(digits_value, 3);
    if word.len() == 2 && word[0] == 'F' && '1' <= word[1] <= '9' {
        assert(without_leading_f(word) =~= word.skip(1));
        assert(word.skip(1)[0] == word[1]);
        assert(function_key_digits(word) =~= seq![word[1]]);
        assert(seq![word[1]].drop_last() =~= Seq::empty());
        assert(digits_value(seq![word[1]]) == (word[1] as u32 - 48) as nat);
    }
    if word.len() == 3 && word[0] == 'F' && '1' <= word[1] <= '2' && '0' <= word[2] <= '9' {
        assert(word.skip(1)[0] == word[1]);
        assert(function_key_digits(word) =~= seq![word[1], word[2]]);
        let digits = seq![word[1], word[2]];
        assert(digits.drop_last() =~= seq![word[1]]);
        assert(seq![word[1]].drop_last() =~= Seq::empty());
        assert(digits_value(seq![word[1]]) == (word[1] as u32 - 48) as nat);
        assert(digits_value(digits) == (word[1] as u32 - 48) as nat * 10 + (word[2] as u32
            - 48) as nat);
    }
}

/// A trigger that is accepted requires exactly the modifiers that its tokens name, and its key
/// is that of the one token that names none.
pub proof fn law_accepted_triggers_mean_what_they_say(
    trigger: &str,
    result: Result<ParsedTrigger, String>,
)
    requires
        call_ensures(parse_trigger, (trigger,), result),
    ensures
        result matches Ok(parsed) ==> {
            let tokens = trigger_tokens(trigger@);
            let required = parsed.required_modifiers;
            &&& required & 0x1 != 0 <==> exists|i: int|
                0 <= i < tokens.len() && lowered(#[trigger] tokens[i]) == "alt"@
            &&& required & 0x2 != 0 <==> exists|i: int|
                0 <= i < tokens.len() && (lowered(#[trigger] tokens[i]) == "ctrl"@ || lowered(
                    tokens[i],
                ) == "control"@)
            &&& required & 0x4 != 0 <==> exists|i: int|
                0 <= i < tokens.len() && lowered(#[trigger] tokens[i]) == "shift"@
            &&& required & 0x8 != 0 <==> exists|i: int|
                0 <= i < tokens.len() && (lowered(#[trigger] tokens[i]) == "win"@ || lowered(
                    tokens[i],
                ) == "windows"@)
            &&& required < 0x10
            &&& parsed.register_modifiers == required | 0x4000
            &&& exists|i: int|
                0 <= i < tokens.len() && !is_modifier_word(#[trigger] tokens[i]) && virtual_key(
                    tokens[i],
                ) == Some(parsed.key) && forall|j: int|
                    0 <= j < tokens.len() && j != i ==> is_modifier_word(#[trigger] tokens[j])
        },
{
    if result is Ok {
        law_named_modifiers_are_required(trigger@);
        let tokens = trigger_tokens(trigger@);
        if forall|i: int| 0 <= i < tokens.len() ==> is_modifier_word(#[trigger] tokens[i]) {
            lemma_no_key_token(tokens);
        }
        let a = choose|i: int| 0 <= i < tokens.len() && !is_modifier_word(#[trigger] tokens[i]);
        assert forall|j: int| 0 <= j < tokens.len() && j != a implies is_modifier_word(
            #[trigger] tokens[j],
        ) by {
            if !is_modifier_word(tokens[j]) {
                if j < a {
                    lemma_two_key_tokens(tokens, j, a);
                } else {
                    lemma_two_key_tokens(tokens, a, j);
                }
            }
        }
        lemma_single_key_token(tokens, a);
        assert(virtual_key(tokens[a]) == Some((result->Ok_0).key));
    }
}

} // verus!
