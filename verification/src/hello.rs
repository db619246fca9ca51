//! The greeting program: a message that reads `Hello` is answered with
//! `Hello!`, pushed in two parts; any other text gets no answer.
use vstd::prelude::*;

verus! {

/// Whether `b` is a continuation byte (`80..=BF`).
pub open spec fn is_cont(b: u8) -> bool {
    0x80 <= b <= 0xbf
}

/// The length of the well-formed UTF-8 sequence that `s` starts with, or 0 if
/// it starts with none (the table of well-formed byte sequences of the Unicode
/// standard, which `std::str::from_utf8` accepts).
pub open spec fn char_width(s: Seq<u8>) -> int {
    if s.len() == 0 {
        0
    } else if s[0] <= 0x7f {
        1
    } else if 0xc2 <= s[0] <= 0xdf {
        if s.len() >= 2 && is_cont(s[1]) { 2 } else { 0 }
    } else if 0xe0 <= s[0] <= 0xef {
        let second_ok = if s.len() < 2 {
            false
        } else if s[0] == 0xe0 {
            0xa0 <= s[1] <= 0xbf
        } else if s[0] == 0xed {
            0x80 <= s[1] <= 0x9f
        } else {
            is_cont(s[1])
        };
        if s.len() >= 3 && second_ok && is_cont(s[2]) { 3 } else { 0 }
    } else if 0xf0 <= s[0] <= 0xf4 {
        let second_ok = if s.len() < 2 {
            false
        } else if s[0] == 0xf0 {
            0x90 <= s[1] <= 0xbf
        } else if s[0] == 0xf4 {
            0x80 <= s[1] <= 0x8f
        } else {
            is_cont(s[1])
        };
        if s.len() >= 4 && second_ok && is_cont(s[2]) && is_cont(s[3]) { 4 } else { 0 }
    } else {
        0
    }
}

/// Whether `s` is well-formed UTF-8: a sequence of well-formed characters.
pub open spec fn utf8_valid(s: Seq<u8>) -> bool
    decreases s.len(),
{
    if s.len() == 0 {
        true
    } else if char_width(s) == 0 {
        false
    } else {
        utf8_valid(s.skip(char_width(s)))
    }
}

fn width_at(bytes: &[u8], i: usize) -> (r: usize)
    requires
        i < bytes@.len(),
    ensures
        r == char_width(bytes@.skip(i as int)),
{
    let ghost s = bytes@.skip(i as int);
    let n = bytes.len();
    let b0 = bytes[i];
    assert(s[0] == b0);
    if b0 <= 0x7f {
        1
    } else if 0xc2 <= b0 && b0 <= 0xdf {
        if n - i >= 2 && 0x80 <= bytes[i + 1] && bytes[i + 1] <= 0xbf {
            assert(s[1] == bytes[i + 1]);
            2
        } else {
            proof {
                if s.len() >= 2 {
                    assert(s[1] == bytes@[i + 1]);
                }
            }
            0
        }
    } else if 0xe0 <= b0 && b0 <= 0xef {
        if n - i < 3 {
            return 0;
        }
        let b1 = bytes[i + 1];
        let b2 = bytes[i + 2];
        assert(s[1] == b1 && s[2] == b2);
        let second_ok = if b0 == 0xe0 {
            0xa0 <= b1 && b1 <= 0xbf
        } else if b0 == 0xed {
            0x80 <= b1 && b1 <= 0x9f
        } else {
            0x80 <= b1 && b1 <= 0xbf
        };
        if second_ok && 0x80 <= b2 && b2 <= 0xbf { 3 } else { 0 }
    } else if 0xf0 <= b0 && b0 <= 0xf4 {
        if n - i < 4 {
            return 0;
        }
        let b1 = bytes[i + 1];
        let b2 = bytes[i + 2];
        let b3 = bytes[i + 3];
        assert(s[1] == b1 && s[2] == b2 && s[3] == b3);
        let second_ok = if b0 == 0xf0 {
            0x90 <= b1 && b1 <= 0xbf
        } else if b0 == 0xf4 {
            0x80 <= b1 && b1 <= 0x8f
        } else {
            0x80 <= b1 && b1 <= 0xbf
        };
        if second_ok && 0x80 <= b2 && b2 <= 0xbf && 0x80 <= b3 && b3 <= 0xbf { 4 } else { 0 }
    } else {
        0
    }
}

/// Whether `bytes` are well-formed UTF-8, as `String::from_utf8` requires.
pub fn is_utf8(bytes: &[u8]) -> (r: bool)
    ensures
        r == utf8_valid(bytes@),
{
    let mut i: usize = 0;
    assert(bytes@.skip(0) =~= bytes@);
    while i < bytes.len()
        invariant
            0 <= i <= bytes@.len(),
            utf8_valid(bytes@) == utf8_valid(bytes@.skip(i as int)),
        decreases bytes.len() - i,
    {
        let w = width_at(bytes, i);
        if w == 0 {
            return false;
        }
        assert(bytes@.skip(i as int).skip(w as int) =~= bytes@.skip(i + w));
        i = i + w;
    }
    assert(bytes@.skip(i as int).len() == 0);
    true
}

/// The text `Hello`.
pub open spec fn hello_text() -> Seq<u8> {
    seq![72u8, 101, 108, 108, 111]
}

/// `Hello` is well-formed UTF-8, so it is always answered.
pub proof fn lemma_hello_is_text()
    ensures
        utf8_valid(hello_text()),
{
    let h = hello_text();
    let s4 = seq![111u8];
    let s3 = seq![108u8, 111];
    let s2 = seq![108u8, 108, 111];
    let s1 = seq![101u8, 108, 108, 111];
    assert(s4.skip(1) =~= Seq::<u8>::empty());
    assert(s3.skip(1) =~= s4);
    assert(s2.skip(1) =~= s3);
    assert(s1.skip(1) =~= s2);
    assert(h.skip(1) =~= s1);
    assert(utf8_valid(Seq::<u8>::empty()));
    assert(char_width(s4) == 1);
    assert(utf8_valid(s4));
    assert(char_width(s3) == 1);
    assert(utf8_valid(s3));
    assert(char_width(s2) == 1);
    assert(utf8_valid(s2));
    assert(char_width(s1) == 1);
    assert(utf8_valid(s1));
    assert(char_width(h) == 1);
}

/// The first part of the answer: `Hel`.
pub open spec fn first_part() -> Seq<u8> {
    seq![72u8, 101, 108]
}

/// The second part of the answer: `lo!`.
pub open spec fn second_part() -> Seq<u8> {
    seq![108u8, 111, 33]
}

/// The message is not text.
#[derive(Clone, Copy, Debug, PartialEq, Eq)]
pub enum HelloError {
    InvalidMessage,
}

/// The answer to a greeting: parts pushed one after the other into one reply,
/// which is committed with `value` attached.
#[derive(Clone, Debug)]
pub struct HelloReply {
    pub parts: Vec<Vec<u8>>,
    pub value: u128,
}

fn is_hello(msg: &[u8]) -> (r: bool)
    ensures
        r == (msg@ == hello_text()),
{
    if msg.len() != 5 {
        return false;
    }
    let r = msg[0] == 72u8 && msg[1] == 101u8 && msg[2] == 108u8 && msg[3] == 108u8 && msg[4] == 111u8;
    proof {
        if r {
            assert(msg@ =~= hello_text());
        } else {
            assert(msg@ != hello_text()) by {
                if msg@ == hello_text() {
                    assert(msg@[0] == hello_text()[0]);
                    assert(msg@[1] == hello_text()[1]);
                    assert(msg@[2] == hello_text()[2]);
                    assert(msg@[3] == hello_text()[3]);
                    assert(msg@[4] == hello_text()[4]);
                }
            }
        }
    }
    r
}

/// The answer to `msg`, given whether `msg` is well-formed UTF-8.
pub fn reply_for(msg: &[u8], valid_utf8: bool) -> (r: Result<Option<HelloReply>, HelloError>)
    ensures
        !valid_utf8 ==> r == Err::<Option<HelloReply>, HelloError>(HelloError::InvalidMessage),
        valid_utf8 && msg@ != hello_text() ==> r matches Ok(None),
        valid_utf8 && msg@ == hello_text() ==> (r matches Ok(Some(reply)) && reply.value == 0
            && reply.parts@.len() == 2 && reply.parts@[0]@ == first_part() && reply.parts@[1]@
            == second_part()),
{
    if !valid_utf8 {
        return Err(HelloError::InvalidMessage);
    }
    if is_hello(msg) {
        let first = vec![72u8, 101, 108];
        let second = vec![108u8, 111, 33];
        assert(first@ =~= first_part());
        assert(second@ =~= second_part());
        Ok(Some(HelloReply { parts: vec![first, second], value: 0 }))
    } else {
        Ok(None)
    }
}

/// Handles a message: text other than UTF-8 is refused; `Hello` is answered.
pub fn handle(msg: &[u8]) -> (r: Result<Option<HelloReply>, HelloError>)
    ensures
        msg@ == hello_text() ==> (r matches Ok(Some(reply)) && reply.value == 0 && reply.parts@.len()
            == 2 && reply.parts@[0]@ == first_part() && reply.parts@[1]@ == second_part()),
        !utf8_valid(msg@) ==> r == Err::<Option<HelloReply>, HelloError>(HelloError::InvalidMessage),
        utf8_valid(msg@) && msg@ != hello_text() ==> r matches Ok(None),
        utf8_valid(msg@) && msg@ == hello_text() ==> (r matches Ok(Some(reply)) && reply.value == 0
            && reply.parts@.len() == 2 && reply.parts@[0]@ == first_part() && reply.parts@[1]@
            == second_part()),
{
    proof {
        lemma_hello_is_text();
    }
    let valid = is_utf8(msg);
    reply_for(msg, valid)
}

} // verus!
