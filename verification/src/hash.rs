//! Integrity of the archive: the published list of checksums, and the digest
//! that a file is held to.

use crate::error::{
    AppResult, ErrorView, InvalidData, IoKind, NotFoundExt, RuntimeError, io_error,
};
use crate::text::{CharClass, chars_of, digit, ends_with, lemma_span, scan, span, whitespace};
use vstd::prelude::*;
use vstd::slice::slice_subrange;
use vstd::string::{StrSliceExecFns, StringExecFns};
use vstd::utf8::{decode_utf8, valid_utf8};

verus! {

/// The error of `String::from_utf8` of std. Nothing is said of what it holds.
#[verifier::external_type_specification]
#[verifier::external_body]
pub struct ExFromUtf8Error(std::string::FromUtf8Error);

/// `String::from_utf8` of std: succeeds exactly on bytes that are valid
/// UTF-8, and then gives the text that they encode.
pub assume_specification[ String::from_utf8 ](vec: Vec<u8>) -> (decoded: Result<
    String,
    std::string::FromUtf8Error,
>)
    ensures
        decoded is Ok <==> valid_utf8(vec@),
        decoded matches Ok(text) ==> text@ == decode_utf8(vec@),
;

/// `line` without the carriage return that ends it, if one does.
pub open spec fn without_cr(line: Seq<char>) -> Seq<char> {
    if line.len() > 0 && line.last() == '\r' {
        line.drop_last()
    } else {
        line
    }
}

/// The lines of `text`. A line ends at a line feed, or at the end of the
/// text; a line feed, and a carriage return just before it, belong to no
/// line. Text after the last line feed is a line only if it is not empty.
pub open spec fn lines(text: Seq<char>) -> Seq<Seq<char>>
    decreases text.len(),
{
    let n = span(text, CharClass::Is('\n'), false);
    if text.len() == 0 {
        Seq::empty()
    } else if 0 <= n < text.len() {
        seq![without_cr(text.take(n))] + lines(text.skip(n + 1))
    } else {
        seq![text]
    }
}

/// The first word of `line`: what stands between the whitespace it starts
/// with, if any, and the next whitespace or the end of the line. A line of
/// whitespace only has none.
pub open spec fn first_token(line: Seq<char>) -> Option<Seq<char>> {
    let rest = line.skip(span(line, CharClass::Whitespace, true));
    if rest.len() == 0 {
        None
    } else {
        Some(rest.take(span(rest, CharClass::Whitespace, false)))
    }
}

/// The first of `lines` that ends with `filename`.
pub open spec fn first_match(lines: Seq<Seq<char>>, filename: Seq<char>) -> Option<Seq<char>>
    decreases lines.len(),
{
    if lines.len() == 0 {
        None
    } else if filename.is_suffix_of(lines[0]) {
        Some(lines[0])
    } else {
        first_match(lines.drop_first(), filename)
    }
}

/// The hash that the list of checksums `text` gives for `filename`: the
/// first word of the first line that ends with `filename`.
pub open spec fn find_hash(text: Seq<char>, filename: Seq<char>) -> Option<Seq<char>> {
    match first_match(lines(text), filename) {
        Some(line) => first_token(line),
        None => None,
    }
}

/// The first word of a line is not empty and holds no whitespace; before it
/// the line holds whitespace only, and after it whitespace or nothing. A
/// line has no first word only if it holds whitespace only.
pub proof fn lemma_first_token(line: Seq<char>)
    ensures
        match first_token(line) {
            Some(token) => {
                &&& token.len() > 0
                &&& forall|j: int| 0 <= j < token.len() ==> !whitespace(#[trigger] token[j])
                &&& exists|a: int|
                    {
                        &&& 0 <= a
                        &&& a + token.len() <= line.len()
                        &&& #[trigger] line.subrange(a, a + token.len()) == token
                        &&& forall|j: int| 0 <= j < a ==> whitespace(#[trigger] line[j])
                        &&& a + token.len() < line.len() ==> whitespace(line[a + token.len()])
                    }
            },
            None => forall|j: int| 0 <= j < line.len() ==> whitespace(#[trigger] line[j]),
        },
{
    let a = span(line, CharClass::Whitespace, true);
    let rest = line.skip(a);
    lemma_span(line, CharClass::Whitespace, true);
    assert forall|j: int| 0 <= j < a implies whitespace(#[trigger] line[j]) by {
        assert(crate::text::in_class(CharClass::Whitespace, line[j]));
    }
    if rest.len() > 0 {
        let n = span(rest, CharClass::Whitespace, false);
        let token = rest.take(n);
        lemma_span(rest, CharClass::Whitespace, false);
        assert(rest[0] == line[a]);
        assert(!crate::text::in_class(CharClass::Whitespace, line[a]));
        assert(n > 0) by {
            if n == 0 {
                assert(crate::text::in_class(CharClass::Whitespace, rest[0]));
            }
        }
        assert forall|j: int| 0 <= j < token.len() implies !whitespace(#[trigger] token[j]) by {
            assert(token[j] == rest[j]);
            assert(!crate::text::in_class(CharClass::Whitespace, rest[j]));
        }
        assert(line.subrange(a, a + token.len()) =~= token);
        if a + token.len() < line.len() {
            assert(rest[n] == line[a + n]);
            assert(crate::text::in_class(CharClass::Whitespace, rest[n]));
        }
        assert(first_token(line) == Some(token));
    } else {
        assert(a == line.len());
    }
}

/// The first match is a line that ends with the name, and no line before it
/// does. There is no match only if no line ends with the name.
pub proof fn lemma_first_match(lines: Seq<Seq<char>>, filename: Seq<char>)
    ensures
        match first_match(lines, filename) {
            Some(line) => exists|i: int|
                {
                    &&& 0 <= i < lines.len()
                    &&& #[trigger] lines[i] == line
                    &&& filename.is_suffix_of(line)
                    &&& forall|j: int| 0 <= j < i ==> !filename.is_suffix_of(#[trigger] lines[j])
                },
            None => forall|j: int|
                0 <= j < lines.len() ==> !filename.is_suffix_of(#[trigger] lines[j]),
        },
    decreases lines.len(),
{
    if lines.len() > 0 && !filename.is_suffix_of(lines[0]) {
        let rest = lines.drop_first();
        lemma_first_match(rest, filename);
        match first_match(rest, filename) {
            Some(line) => {
                let i = choose|i: int|
                    {
                        &&& 0 <= i < rest.len()
                        &&& #[trigger] rest[i] == line
                        &&& filename.is_suffix_of(line)
                        &&& forall|j: int|
                            0 <= j < i ==> !filename.is_suffix_of(#[trigger] rest[j])
                    };
                assert(lines[i + 1] == line);
                assert forall|j: int| 0 <= j < i + 1 implies !filename.is_suffix_of(
                    #[trigger] lines[j],
                ) by {
                    if j > 0 {
                        assert(lines[j] == rest[j - 1]);
                    }
                }
            },
            None => {
                assert forall|j: int| 0 <= j < lines.len() implies !filename.is_suffix_of(
                    #[trigger] lines[j],
                ) by {
                    if j > 0 {
                        assert(lines[j] == rest[j - 1]);
                    }
                }
            },
        }
    } else if lines.len() > 0 {
        assert(lines[0] == lines[0]);
    }
}

/// No line holds a line feed.
pub proof fn lemma_lines(text: Seq<char>)
    ensures
        forall|i: int, j: int|
            0 <= i < lines(text).len() && 0 <= j < lines(text)[i].len() ==> lines(text)[i][j]
                != '\n',
    decreases text.len(),
{
    let n = span(text, CharClass::Is('\n'), false);
    lemma_span(text, CharClass::Is('\n'), false);
    if text.len() == 0 {
    } else if n < text.len() {
        let head = without_cr(text.take(n));
        let tail = lines(text.skip(n + 1));
        lemma_lines(text.skip(n + 1));
        assert forall|i: int, j: int|
            0 <= i < lines(text).len() && 0 <= j < lines(text)[i].len() implies lines(
            text,
        )[i][j] != '\n' by {
            if i == 0 {
                assert(lines(text)[0] == head);
                assert(head[j] == text[j]);
            } else {
                assert(lines(text)[i] == tail[i - 1]);
            }
        }
    } else {
        assert(lines(text) =~= seq![text]);
    }
}

/// The description of the error for a list of checksums that is no text.
pub open spec fn not_utf8_message() -> Seq<char> {
    "failed to parse checksums as utf-8"@
}

/// The description of the error for a file that the list does not name.
pub open spec fn no_hash_message() -> Seq<char> {
    "no matching hash found"@
}

/// What looking up `filename` in the bytes `hashes` comes to.
pub open spec fn file_hash(filename: Seq<char>, hashes: Seq<u8>) -> Result<Seq<char>, ErrorView> {
    if !valid_utf8(hashes) {
        Err(io_error(IoKind::InvalidData, not_utf8_message()))
    } else {
        match find_hash(decode_utf8(hashes), filename) {
            Some(hash) => Ok(hash),
            None => Err(io_error(IoKind::NotFound, no_hash_message())),
        }
    }
}

/// The first word of the part of `text` from `from` up to `to`, as the
/// positions where it starts and ends.
fn token_bounds(text: &Vec<char>, from: usize, to: usize) -> (bounds: Option<(usize, usize)>)
    requires
        from <= to <= text.len(),
    ensures
        match first_token(text@.subrange(from as int, to as int)) {
            Some(token) => bounds matches Some((a, b)) && from <= a <= b <= to && token
                == text@.subrange(a as int, b as int),
            None => bounds is None,
        },
{
    let ghost line = text@.subrange(from as int, to as int);
    let a = scan(text, from, to, CharClass::Whitespace, true);
    assert(line.skip(a - from) =~= text@.subrange(a as int, to as int));
    if a == to {
        None
    } else {
        let b = scan(text, a, to, CharClass::Whitespace, false);
        assert(text@.subrange(a as int, to as int).take(b - a) =~= text@.subrange(
            a as int,
            b as int,
        ));
        Some((a, b))
    }
}

/// Looks up the hash of `filename` in a list of checksums, given as the
/// bytes that were fetched.
pub fn find_file_hash(filename: &str, hashes: Vec<u8>) -> (found: AppResult<String>)
    ensures
        match file_hash(filename@, hashes@) {
            Ok(hash) => found matches Ok(text) && text@ == hash,
            Err(error) => found matches Err(e) && e@ == error,
        },
{
    let data = match String::from_utf8(hashes) {
        Ok(data) => data,
        Err(_) => {
            return Err(RuntimeError::from(InvalidData::new("failed to parse checksums as utf-8")));
        },
    };
    let text = chars_of(data.as_str());
    let name = chars_of(filename);
    let mut hash: Option<String> = None;
    let mut start: usize = 0;
    assert(text@.skip(0) =~= text@);
    while start < text.len()
        invariant_except_break
            hash is None,
            find_hash(text@, name@) == find_hash(text@.skip(start as int), name@),
        invariant
            start <= text.len(),
            text@ == data@,
            name@ == filename@,
        ensures
            match find_hash(text@, name@) {
                Some(token) => hash matches Some(found) && found@ == token,
                None => hash is None,
            },
        decreases text.len() - start,
    {
        let ghost rest = text@.skip(start as int);
        let end = scan(&text, start, text.len(), CharClass::Is('\n'), false);
        assert(text@.subrange(start as int, text@.len() as int) =~= rest);
        let stop = if end < text.len() && end > start && text[end - 1] == '\r' {
            end - 1
        } else {
            end
        };
        let ghost line = text@.subrange(start as int, stop as int);
        proof {
            if end < text.len() {
                assert(rest.take(end - start) =~= text@.subrange(start as int, end as int));
                assert(line =~= without_cr(rest.take(end - start)));
                assert(rest.skip(end - start + 1) =~= text@.skip(end + 1));
                assert(lines(rest) =~= seq![line] + lines(text@.skip(end + 1)));
                assert(lines(rest).drop_first() =~= lines(text@.skip(end + 1)));
            } else {
                assert(line =~= rest);
                assert(lines(rest) =~= seq![line]);
                assert(lines(rest).drop_first() =~= Seq::<Seq<char>>::empty());
                assert(text@.skip(text@.len() as int) =~= Seq::<char>::empty());
            }
            assert(lines(rest)[0] == line);
        }
        if ends_with(&text, start, stop, &name) {
            match token_bounds(&text, start, stop) {
                Some((a, b)) => {
                    hash = Some(data.as_str().substring_char(a, b).to_owned());
                },
                None => {},
            }
            break;
        }
        start = if end < text.len() {
            end + 1
        } else {
            end
        };
    }
    hash.ok_or_not_found("no matching hash found")
}

/// The hexadecimal digit of value `n`, in lower case.
pub open spec fn hex_digit(n: int) -> char
    recommends
        0 <= n < 16,
{
    if n < 10 {
        digit(n as nat)
    } else if n == 10 {
        'a'
    } else if n == 11 {
        'b'
    } else if n == 12 {
        'c'
    } else if n == 13 {
        'd'
    } else if n == 14 {
        'e'
    } else {
        'f'
    }
}

/// `bytes` in lower-case hexadecimal: two digits for each byte, the high
/// half first.
pub open spec fn checksum(bytes: Seq<u8>) -> Seq<char> {
    Seq::new(
        2 * bytes.len(),
        |i: int|
            if i % 2 == 0 {
                hex_digit(bytes[i / 2] as int / 16)
            } else {
                hex_digit(bytes[i / 2] as int % 16)
            },
    )
}

/// Bytes with the same checksum are the same bytes.
pub proof fn lemma_checksum_injective(a: Seq<u8>, b: Seq<u8>)
    requires
        checksum(a) == checksum(b),
    ensures
        a == b,
{
    assert(checksum(a).len() == 2 * a.len());
    assert(checksum(b).len() == 2 * b.len());
    assert forall|i: int| 0 <= i < a.len() implies a[i] == b[i] by {
        assert(checksum(a)[2 * i] == checksum(b)[2 * i]);
        assert(checksum(a)[2 * i + 1] == checksum(b)[2 * i + 1]);
        assert(checksum(a)[2 * i] == hex_digit(a[i] as int / 16));
        assert(checksum(a)[2 * i + 1] == hex_digit(a[i] as int % 16));
        assert(checksum(b)[2 * i] == hex_digit(b[i] as int / 16));
        assert(checksum(b)[2 * i + 1] == hex_digit(b[i] as int % 16));
    }
    assert(a =~= b);
}

/// A checksum has two digits for each byte, each of them a decimal digit or
/// a letter from `a` to `f`.
pub proof fn lemma_checksum_digits(bytes: Seq<u8>)
    ensures
        checksum(bytes).len() == 2 * bytes.len(),
        forall|i: int|
            0 <= i < checksum(bytes).len() ==> {
                let c = #[trigger] checksum(bytes)[i];
                ('0' <= c && c <= '9') || ('a' <= c && c <= 'f')
            },
{
}

fn hex_str(n: u8) -> (s: &'static str)
    requires
        n < 16,
    ensures
        s@ == seq![hex_digit(n as int)],
{
    proof {
        reveal_strlit("0");
        reveal_strlit("1");
        reveal_strlit("2");
        reveal_strlit("3");
        reveal_strlit("4");
        reveal_strlit("5");
        reveal_strlit("6");
        reveal_strlit("7");
        reveal_strlit("8");
        reveal_strlit("9");
        reveal_strlit("a");
        reveal_strlit("b");
        reveal_strlit("c");
        reveal_strlit("d");
        reveal_strlit("e");
        reveal_strlit("f");
    }
    let s = if n == 0 {
        "0"
    } else if n == 1 {
        "1"
    } else if n == 2 {
        "2"
    } else if n == 3 {
        "3"
    } else if n == 4 {
        "4"
    } else if n == 5 {
        "5"
    } else if n == 6 {
        "6"
    } else if n == 7 {
        "7"
    } else if n == 8 {
        "8"
    } else if n == 9 {
        "9"
    } else if n == 10 {
        "a"
    } else if n == 11 {
        "b"
    } else if n == 12 {
        "c"
    } else if n == 13 {
        "d"
    } else if n == 14 {
        "e"
    } else {
        "f"
    };
    assert(s@ =~= seq![hex_digit(n as int)]);
    s
}

/// Writes `bytes` in lower-case hexadecimal.
pub fn to_checksum(bytes: &[u8]) -> (text: String)
    ensures
        text@ == checksum(bytes@),
{
    let mut text = String::new();
    let mut i: usize = 0;
    while i < bytes.len()
        invariant
            i <= bytes.len(),
            text@ == checksum(bytes@.take(i as int)),
        decreases bytes.len() - i,
    {
        let byte = bytes[i];
        let ghost before = text@;
        text.append(hex_str(byte / 16));
        text.append(hex_str(byte % 16));
        i += 1;
        proof {
            let wanted = checksum(bytes@.take(i as int));
            assert(text@.len() == wanted.len());
            assert forall|j: int| 0 <= j < wanted.len() implies text@[j] == wanted[j] by {
                if j < 2 * (i - 1) {
                    assert(text@[j] == before[j]);
                    assert(bytes@.take(i as int)[j / 2] == bytes@.take(i - 1)[j / 2]);
                }
            }
            assert(text@ =~= wanted);
        }
    }
    assert(bytes@.take(i as int) =~= bytes@);
    text
}

/// `ring::digest::Context`, a digest in the making. All that is said of
/// what it holds is said by [`absorbed`].
#[verifier::external_type_specification]
#[verifier::external_body]
pub struct ExContext(ring::digest::Context);

/// The bytes that a digest context has been given since it was made, in the
/// order in which it was given them.
pub uninterp spec fn absorbed(context: ring::digest::Context) -> Seq<u8>;

/// The SHA-256 digest of `message`.
pub uninterp spec fn sha256(message: Seq<u8>) -> Seq<u8>;

/// The longest message, in bytes, that a digest can be made of: its length
/// in bits has to fit in 64 bits.
pub const MAX_MESSAGE_LEN: u64 = 0x1fff_ffff_ffff_ffff;

/// `ring::digest::Context::new` for SHA-256: the new context has been given
/// nothing.
#[verifier::external_body]
fn context_new() -> (context: ring::digest::Context)
    ensures
        absorbed(context) == Seq::<u8>::empty(),
{
    ring::digest::Context::new(&ring::digest::SHA256)
}

/// `ring::digest::Context::update`: the context has then been given `data`
/// after what it had been given before.
#[verifier::external_body]
fn context_update(context: &mut ring::digest::Context, data: &[u8])
    ensures
        absorbed(*final(context)) == absorbed(*old(context)) + data@,
{
    context.update(data)
}

/// `ring::digest::Context::finish`: the digest of all that the context has
/// been given, which for SHA-256 has 32 bytes. The call fails on a message
/// whose length in bits does not fit in 64 bits. This is said of contexts
/// for SHA-256 only: [`context_new`] makes no others, and nothing else in
/// this library makes a context.
#[verifier::external_body]
fn context_finish(context: ring::digest::Context) -> (digest: Vec<u8>)
    requires
        absorbed(context).len() <= MAX_MESSAGE_LEN,
    ensures
        digest@ == sha256(absorbed(context)),
        digest@.len() == 32,
{
    context.finish().as_ref().to_vec()
}

/// A SHA-256 digest in the making: the message is handed over piece by piece
/// and never held as a whole.
pub struct Sha256 {
    context: ring::digest::Context,
    length: u64,
}

impl Sha256 {
    /// The message so far.
    pub closed spec fn message(&self) -> Seq<u8> {
        absorbed(self.context)
    }

    /// The length of the message has been counted, and a digest of it can be made.
    pub closed spec fn wf(&self) -> bool {
        &&& self.length == absorbed(self.context).len()
        &&& self.length <= MAX_MESSAGE_LEN
    }

    /// The checksum that the message so far comes to.
    pub open spec fn digest(&self) -> Seq<char> {
        checksum(sha256(self.message()))
    }

    /// A digest of the empty message.
    pub fn new() -> (made: Self)
        ensures
            made.wf(),
            made.message() == Seq::<u8>::empty(),
    {
        Sha256 { context: context_new(), length: 0 }
    }

    /// The length of the message so far.
    pub fn len(&self) -> (n: u64)
        requires
            self.wf(),
        ensures
            n == self.message().len(),
            n <= MAX_MESSAGE_LEN,
    {
        self.length
    }

    /// Whether the message can grow by `count` bytes.
    pub fn has_room(&self, count: usize) -> (yes: bool)
        requires
            self.wf(),
        ensures
            yes == (self.message().len() + count <= MAX_MESSAGE_LEN),
    {
        count as u64 <= MAX_MESSAGE_LEN - self.length
    }

    /// Appends `data` to the message.
    pub fn update(&mut self, data: &[u8])
        requires
            old(self).wf(),
            old(self).message().len() + data@.len() <= MAX_MESSAGE_LEN,
        ensures
            final(self).wf(),
            final(self).message() == old(self).message() + data@,
    {
        context_update(&mut self.context, data);
        self.length = self.length + data.len() as u64;
    }

    /// Takes what one read of a stream put into `buffer`: its first `count`
    /// bytes are appended to the message. A read of nothing ends the
    /// stream, and only then is the answer `false`.
    pub fn absorb(&mut self, buffer: &[u8], count: usize) -> (more: bool)
        requires
            old(self).wf(),
            count <= buffer@.len(),
            old(self).message().len() + count <= MAX_MESSAGE_LEN,
        ensures
            final(self).wf(),
            final(self).message() == old(self).message() + buffer@.take(count as int),
            more == (count > 0),
    {
        if count == 0 {
            assert(self.message() + buffer@.take(0) =~= self.message());
            return false;
        }
        self.update(slice_subrange(buffer, 0, count));
        true
    }

    /// The checksum of the message: its SHA-256 digest in lower-case
    /// hexadecimal, 64 digits.
    pub fn finish(self) -> (text: String)
        requires
            self.wf(),
        ensures
            text@ == self.digest(),
            text@.len() == 64,
    {
        let digest = context_finish(self.context);
        to_checksum(digest.as_slice())
    }
}

/// Two digests of the same message give the same checksum, however the
/// message was cut into pieces.
pub proof fn lemma_digest_deterministic(a: Sha256, b: Sha256)
    requires
        a.message() == b.message(),
    ensures
        a.digest() == b.digest(),
{
}

/// The description of the error for a file that is not the one published.
pub open spec fn mismatch_message() -> Seq<char> {
    "file hash does not match"@
}

/// What holding a checksum against the published hash comes to.
pub open spec fn hash_verdict(sha256: Seq<char>, hash: Seq<char>) -> Result<(), ErrorView> {
    if sha256 == hash {
        Ok(())
    } else {
        Err(io_error(IoKind::InvalidData, mismatch_message()))
    }
}

/// Holds the checksum `sha256` that a file came to against the published
/// `hash`: they have to be the same text, letter for letter.
pub fn verify_file_hash(sha256: &str, hash: &str) -> (verdict: AppResult<()>)
    ensures
        match hash_verdict(sha256@, hash@) {
            Ok(_) => verdict is Ok,
            Err(error) => verdict matches Err(e) && e@ == error,
        },
{
    if hash.to_owned() != sha256.to_owned() {
        let error = InvalidData::new("file hash does not match");
        return Err(RuntimeError::from(error));
    }
    Ok(())
}

}
