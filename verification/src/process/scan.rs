//! Byte patterns with wildcards, and finding them in a module's bytes.
use vstd::prelude::*;

verus! {

/// The characters of `s`.
pub fn chars_of(s: &str) -> (chars: Vec<char>)
    ensures
        chars@ == s@,
{
    broadcast use vstd::string::axiom_spec_iter;

    let mut chars: Vec<char> = Vec::new();
    for c in it: s.chars()
        invariant
            chars@ == it.history(),
    {
        chars.push(c);
    }
    chars
}

/// Whether `c` is white space as Unicode defines it (what `char::is_whitespace`
/// tests, and what `str::split_whitespace` splits at).
pub open spec fn spec_is_whitespace(c: char) -> bool {
    let v = c as u32;
    ||| 0x09 <= v <= 0x0d
    ||| v == 0x20
    ||| v == 0x85
    ||| v == 0xa0
    ||| v == 0x1680
    ||| 0x2000 <= v <= 0x200a
    ||| v == 0x2028
    ||| v == 0x2029
    ||| v == 0x202f
    ||| v == 0x205f
    ||| v == 0x3000
}

/// Whether `c` is white space.
pub fn is_whitespace(c: char) -> (r: bool)
    ensures
        r == spec_is_whitespace(c),
{
    let v = c as u32;
    (0x09 <= v && v <= 0x0d) || v == 0x20 || v == 0x85 || v == 0xa0 || v == 0x1680 || (0x2000 <= v && v
        <= 0x200a) || v == 0x2028 || v == 0x2029 || v == 0x202f || v == 0x205f || v == 0x3000
}

/// The value of a hexadecimal digit.
pub open spec fn spec_hex_digit(c: char) -> Option<u8> {
    let v = c as u32;
    if 0x30 <= v <= 0x39 {
        Some((v - 0x30) as u8)
    } else if 0x41 <= v <= 0x46 {
        Some((v - 0x41 + 10) as u8)
    } else if 0x61 <= v <= 0x66 {
        Some((v - 0x61 + 10) as u8)
    } else {
        None
    }
}

/// The value of a hexadecimal digit.
pub fn hex_digit(c: char) -> (d: Option<u8>)
    ensures
        d == spec_hex_digit(c),
        d matches Some(v) ==> v < 16,
{
    let v = c as u32;
    if 0x30 <= v && v <= 0x39 {
        Some((v - 0x30) as u8)
    } else if 0x41 <= v && v <= 0x46 {
        Some((v - 0x41 + 10) as u8)
    } else if 0x61 <= v && v <= 0x66 {
        Some((v - 0x61 + 10) as u8)
    } else {
        None
    }
}

/// What `u8::from_str_radix(token, 16)` gives for a two-character token: an
/// optional leading `+` before one digit, or two digits.
pub open spec fn spec_hex_byte(token: Seq<char>) -> Option<u8> {
    if token.len() != 2 {
        None
    } else if token[0] == '+' {
        spec_hex_digit(token[1])
    } else {
        match (spec_hex_digit(token[0]), spec_hex_digit(token[1])) {
            (Some(high), Some(low)) => Some((high * 16 + low) as u8),
            _ => None,
        }
    }
}

/// One entry of a pattern: the byte to match and its mask (0xff to compare
/// the byte, 0x00 for a wildcard).
pub open spec fn spec_token_entry(token: Seq<char>) -> Option<(u8, u8)> {
    if token == seq!['?'] || token == seq!['?', '?'] {
        Some((0x00, 0x00))
    } else {
        match spec_hex_byte(token) {
            Some(b) => Some((b, 0xff)),
            None => None,
        }
    }
}

/// Splitting `s` at white space from position `i` on, with the tokens `done`
/// already complete and `current` under way.
pub open spec fn split_from(s: Seq<char>, i: nat, done: Seq<Seq<char>>, current: Seq<char>) -> Seq<Seq<char>>
    decreases s.len() - i,
{
    if i >= s.len() {
        if current.len() > 0 {
            done.push(current)
        } else {
            done
        }
    } else if spec_is_whitespace(s[i as int]) {
        split_from(s, i + 1, if current.len() > 0 { done.push(current) } else { done }, Seq::empty())
    } else {
        split_from(s, i + 1, done, current.push(s[i as int]))
    }
}

/// The tokens of `s`: its maximal runs of characters other than white space.
pub open spec fn split_whitespace(s: Seq<char>) -> Seq<Seq<char>> {
    split_from(s, 0, Seq::empty(), Seq::empty())
}

/// The entries of a pattern with the given tokens: each `?` or `??` is a
/// wildcard, each token that parses as a hexadecimal byte is that byte, and
/// every other token is left out.
pub open spec fn pattern_entries(tokens: Seq<Seq<char>>) -> Seq<(u8, u8)>
    decreases tokens.len(),
{
    if tokens.len() == 0 {
        Seq::empty()
    } else {
        let rest = pattern_entries(tokens.drop_last());
        match spec_token_entry(tokens.last()) {
            Some(e) => rest.push(e),
            None => rest,
        }
    }
}

/// A byte pattern with wildcards.
pub struct Pattern {
    /// The bytes to match.
    pub bytes: Vec<u8>,
    /// 0xff where the byte is compared, 0x00 where any byte matches.
    pub mask: Vec<u8>,
}

impl Pattern {
    /// The pattern's entries: (byte, mask) pairs.
    pub open spec fn entries(&self) -> Seq<(u8, u8)> {
        Seq::new(self.bytes@.len(), |i: int| (self.bytes@[i], self.mask@[i]))
    }

    pub open spec fn wf(&self) -> bool {
        self.bytes@.len() == self.mask@.len()
    }

    /// The pattern that `pattern` writes: whitespace-separated tokens, each a
    /// two-digit hexadecimal byte or a `?`/`??` wildcard; other tokens are
    /// left out.
    pub fn parse(pattern: &str) -> (p: Pattern)
        ensures
            p.wf(),
            p.entries() == pattern_entries(split_whitespace(pattern@)),
    {
        let chars = chars_of(pattern);
        let mut p = Pattern { bytes: Vec::new(), mask: Vec::new() };
        let mut current: Vec<char> = Vec::new();
        let ghost mut done: Seq<Seq<char>> = Seq::empty();
        let mut i: usize = 0;
        while i < chars.len()
            invariant
                chars@ == pattern@,
                i <= chars@.len(),
                p.wf(),
                p.entries() == pattern_entries(done),
                split_whitespace(pattern@) == split_from(pattern@, i as nat, done, current@),
            decreases chars@.len() - i,
        {
            let c = chars[i];
            if is_whitespace(c) {
                if current.len() > 0 {
                    proof {
                        lemma_entries_push(done, current@);
                        done = done.push(current@);
                    }
                    p.push_token(&current);
                }
                current = Vec::new();
            } else {
                current.push(c);
            }
            i += 1;
        }
        if current.len() > 0 {
            proof {
                lemma_entries_push(done, current@);
            }
            p.push_token(&current);
        }
        p
    }

    /// Adds the entry of one token, if it has one.
    fn push_token(&mut self, token: &Vec<char>)
        requires
            old(self).wf(),
        ensures
            final(self).wf(),
            final(self).entries() == match spec_token_entry(token@) {
                Some(e) => old(self).entries().push(e),
                None => old(self).entries(),
            },
    {
        let entry: Option<(u8, u8)> = if (token.len() == 1 && token[0] == '?') || (token.len() == 2 && token[0] == '?'
            && token[1] == '?') {
            proof {
                if token@.len() == 1 {
                    assert(token@ =~= seq!['?']);
                } else {
                    assert(token@ =~= seq!['?', '?']);
                }
            }
            Some((0x00, 0x00))
        } else {
            proof {
                assert(token@ != seq!['?']) by {
                    if token@ == seq!['?'] {
                        assert(token@.len() == 1 && token@[0] == '?');
                    }
                }
                assert(token@ != seq!['?', '?']) by {
                    if token@ == seq!['?', '?'] {
                        assert(token@.len() == 2 && token@[0] == '?' && token@[1] == '?');
                    }
                }
            }
            if token.len() != 2 {
                None
            } else if token[0] == '+' {
                match hex_digit(token[1]) {
                    Some(b) => Some((b, 0xff)),
                    None => None,
                }
            } else {
                match (hex_digit(token[0]), hex_digit(token[1])) {
                    (Some(high), Some(low)) => Some((high * 16 + low, 0xff)),
                    _ => None,
                }
            }
        };
        if let Some((b, m)) = entry {
            self.bytes.push(b);
            self.mask.push(m);
        }
        assert(self.entries() =~= match spec_token_entry(token@) {
            Some(e) => old(self).entries().push(e),
            None => old(self).entries(),
        });
    }
}

proof fn lemma_entries_push(done: Seq<Seq<char>>, token: Seq<char>)
    ensures
        pattern_entries(done.push(token)) == match spec_token_entry(token) {
            Some(e) => pattern_entries(done).push(e),
            None => pattern_entries(done),
        },
{
    assert(done.push(token).drop_last() =~= done);
}

/// The smallest module the scan looks into.
pub const MIN_MODULE_SIZE: usize = 500;

/// Whether `pattern` matches `module` at `offset`: every compared byte agrees.
pub open spec fn matches_at(pattern: Seq<(u8, u8)>, module: Seq<u8>, offset: int) -> bool {
    forall|j: int|
        0 <= j < pattern.len() ==> (#[trigger] pattern[j]).1 == 0xff ==> module[offset + j] == pattern[j].0
}

/// The first offset from `from` on, below `stop`, where the pattern matches.
pub open spec fn first_match(pattern: Seq<(u8, u8)>, module: Seq<u8>, from: int, stop: int) -> Option<int>
    decreases stop - from,
{
    if from >= stop {
        None
    } else if matches_at(pattern, module, from) {
        Some(from)
    } else {
        first_match(pattern, module, from + 1, stop)
    }
}

/// Where the scan finds the pattern: nothing in a module under 500 bytes;
/// otherwise the first offset below `module.len() - pattern.len()` at which
/// the pattern matches (the last possible offset is not tried), as an address
/// relative to `base`.
pub open spec fn spec_scan(pattern: Seq<(u8, u8)>, module: Seq<u8>, base: u64) -> Option<u64> {
    if module.len() < MIN_MODULE_SIZE {
        None
    } else {
        match first_match(pattern, module, 0, module.len() - pattern.len()) {
            Some(i) => Some(base.wrapping_add(i as u64)),
            None => None,
        }
    }
}

proof fn lemma_first_match_skip(pattern: Seq<(u8, u8)>, module: Seq<u8>, from: int, stop: int)
    requires
        from < stop,
        !matches_at(pattern, module, from),
    ensures
        first_match(pattern, module, from, stop) == first_match(pattern, module, from + 1, stop),
{
}

/// Finds `pattern` in `module`, the bytes of the module at `base`.
pub fn scan_module(pattern: &Pattern, module: &[u8], base: u64) -> (found: Option<u64>)
    requires
        pattern.wf(),
        module@.len() < MIN_MODULE_SIZE || pattern.bytes@.len() <= module@.len(),
    ensures
        found == spec_scan(pattern.entries(), module@, base),
{
    if module.len() < MIN_MODULE_SIZE {
        return None;
    }
    let pattern_length = pattern.bytes.len();
    let stop = module.len() - pattern_length;
    let mut i: usize = 0;
    while i < stop
        invariant
            pattern.wf(),
            pattern_length == pattern.bytes@.len(),
            stop + pattern_length == module@.len(),
            stop + pattern_length == module.len(),
            module@.len() >= MIN_MODULE_SIZE,
            i <= stop,
            first_match(pattern.entries(), module@, 0, stop as int) == first_match(
                pattern.entries(),
                module@,
                i as int,
                stop as int,
            ),
        decreases stop - i,
    {
        let mut j: usize = 0;
        let mut matched = true;
        while j < pattern_length && matched
            invariant
                pattern.wf(),
                pattern_length == pattern.bytes@.len(),
                stop + pattern_length == module@.len(),
                stop + pattern_length == module.len(),
                i < stop,
                j <= pattern_length,
                module@.len() >= MIN_MODULE_SIZE,
                first_match(pattern.entries(), module@, 0, stop as int) == first_match(
                    pattern.entries(),
                    module@,
                    i as int,
                    stop as int,
                ),
                matched ==> forall|k: int|
                    0 <= k < j ==> (#[trigger] pattern.entries()[k]).1 == 0xff ==> module@[i + k]
                        == pattern.entries()[k].0,
                !matched ==> !matches_at(pattern.entries(), module@, i as int),
            decreases pattern_length - j + if matched {
                1int
            } else {
                0int
            },
        {
            if pattern.mask[j] == 0xff && module[i + j] != pattern.bytes[j] {
                assert(pattern.entries()[j as int].1 == 0xff);
                assert(module@[i + j] != pattern.entries()[j as int].0);
                matched = false;
            } else {
                j += 1;
            }
        }
        if matched {
            assert(matches_at(pattern.entries(), module@, i as int));
            return Some(base.wrapping_add(i as u64));
        }
        proof {
            lemma_first_match_skip(pattern.entries(), module@, i as int, stop as int);
        }
        i += 1;
    }
    None
}

proof fn lemma_first_match_is_first(pattern: Seq<(u8, u8)>, module: Seq<u8>, from: int, stop: int)
    ensures
        first_match(pattern, module, from, stop) matches Some(i) ==> {
            &&& from <= i < stop
            &&& matches_at(pattern, module, i)
            &&& forall|k: int| from <= k < i ==> !matches_at(pattern, module, k)
        },
        first_match(pattern, module, from, stop) is None ==> forall|k: int|
            from <= k < stop ==> !matches_at(pattern, module, k),
    decreases stop - from,
{
    if from < stop && !matches_at(pattern, module, from) {
        lemma_first_match_is_first(pattern, module, from + 1, stop);
    }
}

/// An address the scan finds lies at an offset where the pattern matches,
/// and the pattern matches at no lower offset; where the scan finds nothing
/// in a module of at least 500 bytes, the pattern matches at no offset it
/// tries.
pub proof fn lemma_scan_finds_first_match(pattern: Seq<(u8, u8)>, module: Seq<u8>, base: u64)
    ensures
        spec_scan(pattern, module, base) matches Some(a) ==> exists|i: int|
            0 <= i < module.len() - pattern.len() && a == base.wrapping_add(i as u64) && matches_at(pattern, module, i)
                && forall|k: int| 0 <= k < i ==> !matches_at(pattern, module, k),
        module.len() >= MIN_MODULE_SIZE && spec_scan(pattern, module, base) is None ==> forall|k: int|
            0 <= k < module.len() - pattern.len() ==> !matches_at(pattern, module, k),
{
    lemma_first_match_is_first(pattern, module, 0, module.len() - pattern.len());
}

/// Tokens written one after the other, separated by single spaces.
pub open spec fn join_spaced(tokens: Seq<Seq<char>>) -> Seq<char>
    decreases tokens.len(),
{
    if tokens.len() == 0 {
        Seq::empty()
    } else if tokens.len() == 1 {
        tokens[0]
    } else {
        tokens[0] + seq![' '] + join_spaced(tokens.drop_first())
    }
}

/// A token: at least one character, none of them white space.
pub open spec fn is_token(token: Seq<char>) -> bool {
    token.len() > 0 && forall|i: int| 0 <= i < token.len() ==> !spec_is_whitespace(#[trigger] token[i])
}

proof fn lemma_split_run(s: Seq<char>, i: nat, k: nat, done: Seq<Seq<char>>, current: Seq<char>)
    requires
        i + k <= s.len(),
        forall|j: int| i <= j < i + k ==> !spec_is_whitespace(#[trigger] s[j]),
    ensures
        split_from(s, i, done, current) == split_from(s, i + k, done, current + s.subrange(i as int, (i + k) as int)),
    decreases k,
{
    if k == 0 {
        assert(current + s.subrange(i as int, i as int) =~= current);
    } else {
        lemma_split_run(s, i + 1, (k - 1) as nat, done, current.push(s[i as int]));
        assert(current.push(s[i as int]) + s.subrange((i + 1) as int, (i + k) as int) =~= current + s.subrange(
            i as int,
            (i + k) as int,
        ));
    }
}

proof fn lemma_split_join(prefix: Seq<char>, tokens: Seq<Seq<char>>, done: Seq<Seq<char>>)
    requires
        tokens.len() > 0,
        forall|k: int| 0 <= k < tokens.len() ==> is_token(#[trigger] tokens[k]),
    ensures
        split_from(prefix + join_spaced(tokens), prefix.len(), done, Seq::empty()) == done + tokens,
    decreases tokens.len(),
{
    let s = prefix + join_spaced(tokens);
    let first = tokens[0];
    assert(is_token(first));
    let n = first.len();
    assert forall|j: int| prefix.len() <= j < prefix.len() + n implies !spec_is_whitespace(#[trigger] s[j]) by {
        if tokens.len() == 1 {
            assert(s[j] == first[j - prefix.len()]);
        } else {
            assert(s[j] == (first + seq![' '] + join_spaced(tokens.drop_first()))[j - prefix.len()]);
            assert(s[j] == first[j - prefix.len()]);
        }
    }
    lemma_split_run(s, prefix.len(), n, done, Seq::empty());
    if tokens.len() == 1 {
        assert(s.subrange(prefix.len() as int, (prefix.len() + n) as int) =~= first);
        assert(Seq::<char>::empty() + first =~= first);
        assert(s.len() == prefix.len() + n);
        assert(done.push(first) =~= done + tokens);
    } else {
        let rest = tokens.drop_first();
        let prefix2 = prefix + first + seq![' '];
        assert(s =~= prefix2 + join_spaced(rest));
        assert(s.subrange(prefix.len() as int, (prefix.len() + n) as int) =~= first);
        assert(Seq::<char>::empty() + first =~= first);
        assert(s[(prefix.len() + n) as int] == ' ');
        assert(spec_is_whitespace(' '));
        assert forall|k: int| 0 <= k < rest.len() implies is_token(#[trigger] rest[k]) by {
            assert(rest[k] == tokens[k + 1]);
        }
        lemma_split_join(prefix2, rest, done.push(first));
        assert(done.push(first) + rest =~= done + tokens);
    }
}

/// Tokens written with single spaces between them split back into the same
/// tokens.
pub proof fn lemma_split_spaced_tokens(tokens: Seq<Seq<char>>)
    requires
        tokens.len() > 0,
        forall|k: int| 0 <= k < tokens.len() ==> is_token(#[trigger] tokens[k]),
    ensures
        split_whitespace(join_spaced(tokens)) == tokens,
{
    lemma_split_join(Seq::empty(), tokens, Seq::empty());
    assert(Seq::<char>::empty() + join_spaced(tokens) =~= join_spaced(tokens));
    assert(Seq::<Seq<char>>::empty() + tokens =~= tokens);
}

/// Where every token has an entry, the pattern has one entry per token, in
/// order.
pub proof fn lemma_entries_of_valid_tokens(tokens: Seq<Seq<char>>)
    requires
        forall|k: int| 0 <= k < tokens.len() ==> (#[trigger] spec_token_entry(tokens[k])) is Some,
    ensures
        pattern_entries(tokens).len() == tokens.len(),
        forall|k: int| 0 <= k < tokens.len() ==> pattern_entries(tokens)[k] == (#[trigger] spec_token_entry(tokens[k]))->0,
    decreases tokens.len(),
{
    if tokens.len() > 0 {
        let rest = tokens.drop_last();
        assert forall|k: int| 0 <= k < rest.len() implies (#[trigger] spec_token_entry(rest[k])) is Some by {
            assert(rest[k] == tokens[k]);
        }
        lemma_entries_of_valid_tokens(rest);
        assert(spec_token_entry(tokens[tokens.len() - 1]) is Some);
        assert forall|k: int| 0 <= k < tokens.len() implies pattern_entries(tokens)[k] == (#[trigger] spec_token_entry(
            tokens[k],
        ))->0 by {
            if k < tokens.len() - 1 {
                assert(rest[k] == tokens[k]);
            }
        }
    }
}

/// A pattern written as bytes and wildcards separated by single spaces parses
/// into one entry per token: each hexadecimal byte compared, each `?` or
/// `??` matching anything.
pub proof fn lemma_parse_spaced_pattern(tokens: Seq<Seq<char>>)
    requires
        tokens.len() > 0,
        forall|k: int| 0 <= k < tokens.len() ==> is_token(#[trigger] tokens[k]),
        forall|k: int| 0 <= k < tokens.len() ==> (#[trigger] spec_token_entry(tokens[k])) is Some,
    ensures
        pattern_entries(split_whitespace(join_spaced(tokens))).len() == tokens.len(),
        forall|k: int|
            0 <= k < tokens.len() ==> pattern_entries(split_whitespace(join_spaced(tokens)))[k] == (
            #[trigger] spec_token_entry(tokens[k]))->0,
{
    lemma_split_spaced_tokens(tokens);
    lemma_entries_of_valid_tokens(tokens);
}


/// Whether a token stands for an entry of a pattern: a wildcard or a
/// hexadecimal byte.
pub open spec fn has_entry(token: Seq<char>) -> bool {
    spec_token_entry(token) is Some
}

/// The tokens that stand for entries, in order: the others dropped.
pub open spec fn entry_tokens(tokens: Seq<Seq<char>>) -> Seq<Seq<char>> {
    tokens.filter(|t: Seq<char>| has_entry(t))
}

/// A hexadecimal digit written in lower case; every other character as it is.
pub open spec fn hex_lower(c: char) -> char {
    if c == 'A' {
        'a'
    } else if c == 'B' {
        'b'
    } else if c == 'C' {
        'c'
    } else if c == 'D' {
        'd'
    } else if c == 'E' {
        'e'
    } else if c == 'F' {
        'f'
    } else {
        c
    }
}

/// A token with its hexadecimal digits in lower case.
pub open spec fn lower_hex_token(token: Seq<char>) -> Seq<char> {
    token.map_values(|c: char| hex_lower(c))
}

/// A token with `??` written as `?`.
pub open spec fn short_wildcard(token: Seq<char>) -> Seq<char> {
    if token == seq!['?', '?'] {
        seq!['?']
    } else {
        token
    }
}

/// The entries of a pattern written with single spaces are those of its
/// tokens.
proof fn lemma_spaced_entries(tokens: Seq<Seq<char>>)
    requires
        forall|k: int| 0 <= k < tokens.len() ==> is_token(#[trigger] tokens[k]),
    ensures
        pattern_entries(split_whitespace(join_spaced(tokens))) == pattern_entries(tokens),
{
    if tokens.len() == 0 {
        assert(split_whitespace(join_spaced(tokens)) =~= tokens);
    } else {
        lemma_split_spaced_tokens(tokens);
    }
}

/// Tokens that stand for the same entries give the same pattern.
proof fn lemma_entries_congruent(tokens: Seq<Seq<char>>, others: Seq<Seq<char>>)
    requires
        tokens.len() == others.len(),
        forall|k: int| 0 <= k < tokens.len() ==> spec_token_entry(#[trigger] tokens[k]) == spec_token_entry(others[k]),
    ensures
        pattern_entries(tokens) == pattern_entries(others),
    decreases tokens.len(),
{
    if tokens.len() > 0 {
        let t = tokens.drop_last();
        let o = others.drop_last();
        assert forall|k: int| 0 <= k < t.len() implies spec_token_entry(#[trigger] t[k]) == spec_token_entry(o[k]) by {
            assert(t[k] == tokens[k]);
            assert(o[k] == others[k]);
        }
        lemma_entries_congruent(t, o);
        assert(spec_token_entry(tokens[tokens.len() - 1]) == spec_token_entry(others[others.len() - 1]));
    }
}

/// Dropping the tokens without an entry keeps the pattern, and what is kept
/// are tokens.
proof fn lemma_entry_tokens(tokens: Seq<Seq<char>>)
    ensures
        pattern_entries(entry_tokens(tokens)) == pattern_entries(tokens),
        (forall|k: int| 0 <= k < tokens.len() ==> is_token(#[trigger] tokens[k])) ==> forall|k: int|
            0 <= k < entry_tokens(tokens).len() ==> is_token(#[trigger] entry_tokens(tokens)[k]),
    decreases tokens.len(),
{
    reveal(Seq::filter);
    if tokens.len() > 0 {
        let rest = tokens.drop_last();
        lemma_entry_tokens(rest);
        let kept = entry_tokens(rest);
        assert(entry_tokens(tokens) == if has_entry(tokens.last()) {
            kept.push(tokens.last())
        } else {
            kept
        });
        if has_entry(tokens.last()) {
            assert(kept.push(tokens.last()).drop_last() =~= kept);
        }
        if forall|k: int| 0 <= k < tokens.len() ==> is_token(#[trigger] tokens[k]) {
            assert forall|k: int| 0 <= k < rest.len() implies is_token(#[trigger] rest[k]) by {
                assert(rest[k] == tokens[k]);
            }
            assert(is_token(tokens[tokens.len() - 1]));
        }
    }
}

/// Tokens none of which stands for an entry give the empty pattern.
proof fn lemma_no_entries(tokens: Seq<Seq<char>>)
    requires
        forall|k: int| 0 <= k < tokens.len() ==> !has_entry(#[trigger] tokens[k]),
    ensures
        pattern_entries(tokens).len() == 0,
    decreases tokens.len(),
{
    if tokens.len() > 0 {
        let rest = tokens.drop_last();
        assert forall|k: int| 0 <= k < rest.len() implies !has_entry(#[trigger] rest[k]) by {
            assert(rest[k] == tokens[k]);
        }
        lemma_no_entries(rest);
        assert(!has_entry(tokens[tokens.len() - 1]));
    }
}

/// A pattern written with single spaces between its tokens is found where
/// the same pattern without its tokens that are neither a wildcard nor a
/// hexadecimal byte is found.
pub proof fn lemma_scan_ignores_other_tokens(tokens: Seq<Seq<char>>, module: Seq<u8>, base: u64)
    requires
        forall|k: int| 0 <= k < tokens.len() ==> is_token(#[trigger] tokens[k]),
    ensures
        spec_scan(pattern_entries(split_whitespace(join_spaced(tokens))), module, base) == spec_scan(
            pattern_entries(split_whitespace(join_spaced(entry_tokens(tokens)))),
            module,
            base,
        ),
{
    lemma_entry_tokens(tokens);
    lemma_spaced_entries(tokens);
    lemma_spaced_entries(entry_tokens(tokens));
}

/// Two patterns whose tokens stand, one by one, for the same entries are
/// found at the same place.
pub proof fn lemma_scan_same_entries(tokens: Seq<Seq<char>>, others: Seq<Seq<char>>, module: Seq<u8>, base: u64)
    requires
        forall|k: int| 0 <= k < tokens.len() ==> is_token(#[trigger] tokens[k]),
        forall|k: int| 0 <= k < others.len() ==> is_token(#[trigger] others[k]),
        tokens.len() == others.len(),
        forall|k: int| 0 <= k < tokens.len() ==> spec_token_entry(#[trigger] tokens[k]) == spec_token_entry(others[k]),
    ensures
        spec_scan(pattern_entries(split_whitespace(join_spaced(tokens))), module, base) == spec_scan(
            pattern_entries(split_whitespace(join_spaced(others))),
            module,
            base,
        ),
{
    lemma_entries_congruent(tokens, others);
    lemma_spaced_entries(tokens);
    lemma_spaced_entries(others);
}

proof fn lemma_hex_lower_digit(c: char)
    ensures
        spec_hex_digit(hex_lower(c)) == spec_hex_digit(c),
        hex_lower(c) == '+' <==> c == '+',
        hex_lower(c) == '?' <==> c == '?',
        spec_is_whitespace(hex_lower(c)) == spec_is_whitespace(c),
{
}

proof fn lemma_lower_hex_entry(token: Seq<char>)
    ensures
        spec_token_entry(lower_hex_token(token)) == spec_token_entry(token),
        is_token(token) ==> is_token(lower_hex_token(token)),
{
    let lower = lower_hex_token(token);
    assert forall|i: int| 0 <= i < token.len() implies {
        &&& spec_hex_digit(#[trigger] lower[i]) == spec_hex_digit(token[i])
        &&& (lower[i] == '+' <==> token[i] == '+')
        &&& (lower[i] == '?' <==> token[i] == '?')
        &&& spec_is_whitespace(lower[i]) == spec_is_whitespace(token[i])
    } by {
        lemma_hex_lower_digit(token[i]);
    }
    assert(lower == seq!['?'] <==> token == seq!['?']) by {
        if token == seq!['?'] {
            assert(lower =~= seq!['?']);
        }
        if lower == seq!['?'] {
            assert(token.len() == 1 && token[0] == '?');
            assert(token =~= seq!['?']);
        }
    }
    assert(lower == seq!['?', '?'] <==> token == seq!['?', '?']) by {
        if token == seq!['?', '?'] {
            assert(lower =~= seq!['?', '?']);
        }
        if lower == seq!['?', '?'] {
            assert(token.len() == 2 && token[0] == '?' && token[1] == '?');
            assert(token =~= seq!['?', '?']);
        }
    }
    if token.len() == 2 {
        assert(spec_hex_byte(lower) == spec_hex_byte(token));
    }
}

/// `?` and `??` are the same wildcard, and a hexadecimal byte stands for the
/// same entry whichever case its digits are written in.
pub proof fn lemma_token_forms(token: Seq<char>)
    ensures
        spec_token_entry(seq!['?']) == spec_token_entry(seq!['?', '?']),
        spec_token_entry(short_wildcard(token)) == spec_token_entry(token),
        spec_token_entry(lower_hex_token(token)) == spec_token_entry(token),
{
    lemma_lower_hex_entry(token);
}

/// A pattern is found at the same place whatever case its hexadecimal digits
/// are written in.
pub proof fn lemma_scan_hex_case(tokens: Seq<Seq<char>>, module: Seq<u8>, base: u64)
    requires
        forall|k: int| 0 <= k < tokens.len() ==> is_token(#[trigger] tokens[k]),
    ensures
        spec_scan(pattern_entries(split_whitespace(join_spaced(tokens))), module, base) == spec_scan(
            pattern_entries(split_whitespace(join_spaced(tokens.map_values(|t: Seq<char>| lower_hex_token(t))))),
            module,
            base,
        ),
{
    let lowered = tokens.map_values(|t: Seq<char>| lower_hex_token(t));
    assert forall|k: int| 0 <= k < lowered.len() implies is_token(#[trigger] lowered[k]) && spec_token_entry(
        tokens[k],
    ) == spec_token_entry(lowered[k]) by {
        lemma_lower_hex_entry(tokens[k]);
    }
    lemma_scan_same_entries(tokens, lowered, module, base);
}

/// A pattern is found at the same place whether its wildcards are written
/// `?` or `??`.
pub proof fn lemma_scan_wildcard_forms(tokens: Seq<Seq<char>>, module: Seq<u8>, base: u64)
    requires
        forall|k: int| 0 <= k < tokens.len() ==> is_token(#[trigger] tokens[k]),
    ensures
        spec_scan(pattern_entries(split_whitespace(join_spaced(tokens))), module, base) == spec_scan(
            pattern_entries(split_whitespace(join_spaced(tokens.map_values(|t: Seq<char>| short_wildcard(t))))),
            module,
            base,
        ),
{
    let shortened = tokens.map_values(|t: Seq<char>| short_wildcard(t));
    assert forall|k: int| 0 <= k < shortened.len() implies is_token(#[trigger] shortened[k]) && spec_token_entry(
        tokens[k],
    ) == spec_token_entry(shortened[k]) by {
        if tokens[k] == seq!['?', '?'] {
            assert(shortened[k] == seq!['?']);
            assert(seq!['?'][0] == '?');
        }
    }
    lemma_scan_same_entries(tokens, shortened, module, base);
}

/// A pattern none of whose tokens is a wildcard or a hexadecimal byte is
/// found at the start of any module of at least 500 bytes.
pub proof fn lemma_scan_without_entries(pattern: Seq<char>, module: Seq<u8>, base: u64)
    requires
        module.len() >= MIN_MODULE_SIZE,
        forall|k: int|
            0 <= k < split_whitespace(pattern).len() ==> !has_entry(#[trigger] split_whitespace(pattern)[k]),
    ensures
        spec_scan(pattern_entries(split_whitespace(pattern)), module, base) == Some(base),
{
    let entries = pattern_entries(split_whitespace(pattern));
    lemma_no_entries(split_whitespace(pattern));
    assert(matches_at(entries, module, 0));
    assert(first_match(entries, module, 0, module.len() - entries.len()) == Some(0int));
    assert(base.wrapping_add(0) == base);
}


/// The hexadecimal numerals in lower case, by value.
pub open spec fn lower_hex_numerals() -> Seq<char> {
    "0123456789abcdef"@
}

/// The hexadecimal numerals in upper case, by value.
pub open spec fn upper_hex_numerals() -> Seq<char> {
    "0123456789ABCDEF"@
}

proof fn lemma_numeral_codes()
    ensures
        lower_hex_numerals().len() == 16,
        upper_hex_numerals().len() == 16,
        forall|d: int|
            0 <= d < 16 ==> (#[trigger] lower_hex_numerals()[d]) as u32 == if d < 10 {
                0x30 + d
            } else {
                0x61 + d - 10
            },
        forall|d: int|
            0 <= d < 16 ==> (#[trigger] upper_hex_numerals()[d]) as u32 == if d < 10 {
                0x30 + d
            } else {
                0x41 + d - 10
            },
{
    reveal_strlit("0123456789abcdef");
    reveal_strlit("0123456789ABCDEF");
    assert(lower_hex_numerals()[0] == '0' && upper_hex_numerals()[0] == '0');
    assert(lower_hex_numerals()[1] == '1' && upper_hex_numerals()[1] == '1');
    assert(lower_hex_numerals()[2] == '2' && upper_hex_numerals()[2] == '2');
    assert(lower_hex_numerals()[3] == '3' && upper_hex_numerals()[3] == '3');
    assert(lower_hex_numerals()[4] == '4' && upper_hex_numerals()[4] == '4');
    assert(lower_hex_numerals()[5] == '5' && upper_hex_numerals()[5] == '5');
    assert(lower_hex_numerals()[6] == '6' && upper_hex_numerals()[6] == '6');
    assert(lower_hex_numerals()[7] == '7' && upper_hex_numerals()[7] == '7');
    assert(lower_hex_numerals()[8] == '8' && upper_hex_numerals()[8] == '8');
    assert(lower_hex_numerals()[9] == '9' && upper_hex_numerals()[9] == '9');
    assert(lower_hex_numerals()[10] == 'a' && upper_hex_numerals()[10] == 'A');
    assert(lower_hex_numerals()[11] == 'b' && upper_hex_numerals()[11] == 'B');
    assert(lower_hex_numerals()[12] == 'c' && upper_hex_numerals()[12] == 'C');
    assert(lower_hex_numerals()[13] == 'd' && upper_hex_numerals()[13] == 'D');
    assert(lower_hex_numerals()[14] == 'e' && upper_hex_numerals()[14] == 'E');
    assert(lower_hex_numerals()[15] == 'f' && upper_hex_numerals()[15] == 'F');
}

/// The hexadecimal digits are exactly the numerals `0`-`9`, `a`-`f` and
/// `A`-`F` (compared by code point), each with the value of its place among
/// the numerals.
pub proof fn lemma_hex_digit_values()
    ensures
        forall|d: int| 0 <= d < 16 ==> spec_hex_digit(#[trigger] lower_hex_numerals()[d]) == Some(d as u8),
        forall|d: int| 0 <= d < 16 ==> spec_hex_digit(#[trigger] upper_hex_numerals()[d]) == Some(d as u8),
        forall|c: char|
            (#[trigger] spec_hex_digit(c)) is Some ==> spec_hex_digit(c)->0 < 16 && (lower_hex_numerals()[spec_hex_digit(
                c,
            )->0 as int] as u32 == c as u32 || upper_hex_numerals()[spec_hex_digit(c)->0 as int] as u32 == c as u32),
{
    lemma_numeral_codes();
    assert forall|c: char| (#[trigger] spec_hex_digit(c)) is Some implies spec_hex_digit(c)->0 < 16 && (
    lower_hex_numerals()[spec_hex_digit(c)->0 as int] as u32 == c as u32 || upper_hex_numerals()[spec_hex_digit(
        c,
    )->0 as int] as u32 == c as u32) by {
        let v = spec_hex_digit(c)->0 as int;
        let x = c as u32;
        if 0x41 <= x <= 0x46 {
            assert(upper_hex_numerals()[v] as u32 == x);
        } else {
            assert(lower_hex_numerals()[v] as u32 == x);
        }
    }
}

/// A token of two hexadecimal numerals is the byte they write, compared:
/// sixteen times the value of the first plus that of the second.
pub proof fn lemma_hex_byte_tokens()
    ensures
        forall|high: int, low: int|
            0 <= high < 16 && 0 <= low < 16 ==> spec_token_entry(
                seq![#[trigger] lower_hex_numerals()[high], #[trigger] upper_hex_numerals()[low]],
            ) == Some(((16 * high + low) as u8, 0xffu8)),
{
    lemma_hex_digit_values();
    lemma_numeral_codes();
    assert forall|high: int, low: int| 0 <= high < 16 && 0 <= low < 16 implies spec_token_entry(
        seq![#[trigger] lower_hex_numerals()[high], #[trigger] upper_hex_numerals()[low]],
    ) == Some(((16 * high + low) as u8, 0xffu8)) by {
        let a = lower_hex_numerals()[high];
        let b = upper_hex_numerals()[low];
        let token = seq![a, b];
        assert(spec_hex_digit(a) == Some(high as u8));
        assert(spec_hex_digit(b) == Some(low as u8));
        assert(a != '?' && a != '+');
        assert(token[0] == a && token[1] == b && token.len() == 2);
        assert(token != seq!['?']);
        assert(token != seq!['?', '?']) by {
            assert(seq!['?', '?'][0] == '?');
        }
    }
}

} // verus!
