//! HTTP Basic authentication.
use crate::encoding::{
    base64_bytes, base64_decode, base64_encode, base64_text, is_base64_char, utf8_text,
};
use crate::text::{
    chars_eq, chars_of, lemma_position_is, split_once, split_once_chars, string_of,
};
use crate::tokens::{
    is_whitespace, lemma_word_run_is, split_whitespace, split_whitespace_chars, texts,
};
use vstd::prelude::*;
use vstd::utf8::{decode_utf8, encode_utf8, valid_utf8};

verus! {

/// A user name and a password, neither of them empty.
#[derive(Debug)]
pub struct Credentials {
    username: String,
    password: String,
}

impl View for Credentials {
    type V = (Seq<char>, Seq<char>);

    closed spec fn view(&self) -> (Seq<char>, Seq<char>) {
        (self.username@, self.password@)
    }
}

impl Credentials {
    /// Neither the user name nor the password is empty.
    #[verifier::type_invariant]
    spec fn well_formed(self) -> bool {
        self.username@.len() > 0 && self.password@.len() > 0
    }

    /// The credentials made of `username` and `password`, unless one of them
    /// is empty.
    pub fn new(username: String, password: String) -> (r: Option<Self>)
        ensures
            r is Some <==> username@.len() > 0 && password@.len() > 0,
            r matches Some(c) ==> c@ == (username@, password@),
    {
        if username.as_str().unicode_len() > 0 && password.as_str().unicode_len() > 0 {
            Some(Credentials { username, password })
        } else {
            None
        }
    }

    /// The user name, which is not empty.
    pub fn username(&self) -> (r: &String)
        ensures
            r@ == self@.0,
            r@.len() > 0,
    {
        proof {
            use_type_invariant(self);
        }
        &self.username
    }

    /// The password, which is not empty.
    pub fn password(&self) -> (r: &String)
        ensures
            r@ == self@.1,
            r@.len() > 0,
    {
        proof {
            use_type_invariant(self);
        }
        &self.password
    }

    /// The value of an `Authorization` header that presents these
    /// credentials: `Basic`, one space, and Base64 for the user name, a colon
    /// and the password. A server with these credentials grants it, unless
    /// the user name holds a colon.
    pub fn authorization(&self) -> (r: String)
        requires
            (basic_text(self@).len() / 3 + 1) * 4 <= usize::MAX,
        ensures
            r@ == "Basic "@ + base64_text(basic_text(self@)),
            !self@.0.contains(':') ==> grants(r@, self@),
    {
        proof {
            use_type_invariant(self);
        }
        let mut text = String::from_str(self.username.as_str());
        text.append(":");
        text.append(self.password.as_str());
        proof {
            reveal_strlit(":");
            assert(":"@ =~= seq![':']);
            assert(text@ =~= self@.0 + seq![':'] + self@.1);
        }
        let word = base64_encode(text.as_str().as_bytes());
        let mut r = String::from_str("Basic ");
        r.append(word.as_str());
        proof {
            assert(text@[0] == self@.0[0]);
            assert(encode_utf8(text@).len() > 0);
            assert(word@.len() > 0);
            assert forall|i: int| 0 <= i < word@.len() implies !is_whitespace(
                #[trigger] word@[i],
            ) by {
                assert(is_base64_char(word@[i]));
            }
            if !self@.0.contains(':') {
                lemma_basic_presents(word@, self@.0, self@.1);
            }
        }
        r
    }
}

/// The bytes that Basic authentication encodes for the user name and the
/// password `credentials`: the name, a colon and the password as UTF-8.
pub open spec fn basic_text(credentials: (Seq<char>, Seq<char>)) -> Seq<u8> {
    encode_utf8(credentials.0 + seq![':'] + credentials.1)
}

/// The credentials that `text` holds in the form `user:password`: the text
/// must hold exactly one colon.
pub open spec fn credentials_text(text: Seq<char>) -> Option<(Seq<char>, Seq<char>)> {
    match split_once(text, ':') {
        Some((user, password)) => if split_once(password, ':') is None && user.len() > 0
            && password.len() > 0 {
            Some((user, password))
        } else {
            None
        },
        None => None,
    }
}

/// Reads credentials written as `user:password`.
///
/// The text must hold exactly one colon, with text on both sides of it.
/// Anything else is refused with the message
/// `The format must be username:password`.
pub fn parse_credentials(text: &str) -> (r: Result<Credentials, String>)
    ensures
        match credentials_text(text@) {
            Some(pair) => r matches Ok(c) && c@ == pair,
            None => r matches Err(m) && m@ == "The format must be username:password"@,
        },
{
    let chars = chars_of(text);
    match split_once_chars(chars.as_slice(), ':') {
        Some((user, password)) => {
            if split_once_chars(password.as_slice(), ':').is_none() {
                match Credentials::new(
                    string_of(user.as_slice()),
                    string_of(password.as_slice()),
                ) {
                    Some(c) => Ok(c),
                    None => Err("The format must be username:password".to_owned()),
                }
            } else {
                Err("The format must be username:password".to_owned())
            }
        },
        None => Err("The format must be username:password".to_owned()),
    }
}

/// The user name and the password that the value of an `Authorization`
/// header presents: the value must be the word `Basic` and one more word;
/// that word must be Base64 for UTF-8 text; the text is split at its first
/// colon.
pub open spec fn presented(header: Seq<char>) -> Option<(Seq<char>, Seq<char>)> {
    let words = split_whitespace(header);
    if words.len() == 2 && words[0] == "Basic"@ {
        match base64_bytes(words[1]) {
            Some(bytes) => named(bytes),
            None => None,
        }
    } else {
        None
    }
}

/// The user name and the password that decoded credentials name: the bytes
/// must be UTF-8; the text is split at its first colon.
pub open spec fn named(bytes: Seq<u8>) -> Option<(Seq<char>, Seq<char>)> {
    if valid_utf8(bytes) {
        split_once(decode_utf8(bytes), ':')
    } else {
        None
    }
}

/// Whether the value of an `Authorization` header presents exactly the
/// credentials `expected`.
pub open spec fn grants(header: Seq<char>, expected: (Seq<char>, Seq<char>)) -> bool {
    presented(header) == Some(expected)
}

/// The words of `Basic`, one space and a word are `Basic` and that word.
pub proof fn lemma_basic_words(word: Seq<char>)
    requires
        word.len() > 0,
        forall|i: int| 0 <= i < word.len() ==> !is_whitespace(#[trigger] word[i]),
    ensures
        split_whitespace("Basic "@ + word) == seq!["Basic"@, word],
{
    reveal_strlit("Basic ");
    reveal_strlit("Basic");
    let scheme = "Basic "@;
    let header = scheme + word;
    assert(scheme.len() == 6);
    assert(header[0] == 'B' && header[1] == 'a' && header[2] == 's' && header[3] == 'i'
        && header[4] == 'c' && header[5] == ' ');
    assert(is_whitespace(' '));
    assert(!is_whitespace('B') && !is_whitespace('a') && !is_whitespace('s') && !is_whitespace('i')
        && !is_whitespace('c'));
    lemma_word_run_is(header, 5);
    assert(header.take(5) =~= "Basic"@);
    let rest = header.skip(5);
    assert(rest[0] == ' ');
    assert(rest.drop_first() =~= word);
    lemma_word_run_is(word, word.len() as int);
    assert(word.take(word.len() as int) =~= word);
    assert(word.skip(word.len() as int).len() == 0);
    assert(split_whitespace(word.skip(word.len() as int)) =~= Seq::empty());
    assert(!is_whitespace(word[0]));
    assert(split_whitespace(word) =~= seq![word]);
    assert(split_whitespace(rest) == split_whitespace(word));
    assert(split_whitespace(header) =~= seq!["Basic"@, word]);
}

/// The value `Basic`, one space and Base64 for `user:password` presents the
/// user `user` with the password `password`, where `user` holds no colon.
pub proof fn lemma_basic_presents(word: Seq<char>, user: Seq<char>, password: Seq<char>)
    requires
        word.len() > 0,
        forall|i: int| 0 <= i < word.len() ==> !is_whitespace(#[trigger] word[i]),
        base64_bytes(word) == Some(encode_utf8(user + seq![':'] + password)),
        forall|i: int| 0 <= i < user.len() ==> user[i] != ':',
    ensures
        presented("Basic "@ + word) == Some((user, password)),
{
    lemma_basic_words(word);
    let text = user + seq![':'] + password;
    vstd::utf8::encode_utf8_valid_utf8(text);
    vstd::utf8::encode_utf8_decode_utf8(text);
    assert(text[user.len() as int] == ':');
    assert forall|j: int| 0 <= j < user.len() implies text[j] != ':' by {
        assert(text[j] == user[j]);
    }
    lemma_position_is(text, ':', user.len() as int);
    assert(text.take(user.len() as int) =~= user);
    assert(text.skip(user.len() as int + 1) =~= password);
}

/// Whether `a` and `b` hold the same text.
///
/// Every position up to the shorter length is visited whatever the texts
/// hold, so that the time taken does not tell where they first differ.
pub fn fixed_time_eq(a: &[char], b: &[char]) -> (r: bool)
    ensures
        r == (a@ == b@),
{
    let n = if a.len() < b.len() {
        a.len()
    } else {
        b.len()
    };
    let mut difference: u32 = 0;
    let mut i: usize = 0;
    assert(a@.take(0) =~= b@.take(0));
    while i < n
        invariant
            i <= n,
            n <= a@.len(),
            n <= b@.len(),
            (difference == 0) == (a@.take(i as int) == b@.take(i as int)),
        decreases n - i,
    {
        let x: u32 = a[i] as u32;
        let y: u32 = b[i] as u32;
        let here: u32 = x ^ y;
        let next: u32 = difference | here;
        proof {
            vstd::utf8::char_u32_cast(a@[i as int], x);
            vstd::utf8::char_u32_cast(b@[i as int], y);
            assert((x == y) == (a@[i as int] == b@[i as int]));
            assert((here == 0) == (x == y)) by (bit_vector)
                requires
                    here == x ^ y,
            ;
            assert((next == 0) == (difference == 0 && here == 0)) by (bit_vector)
                requires
                    next == difference | here,
            ;
            assert(a@.take(i + 1) =~= a@.take(i as int).push(a@[i as int]));
            assert(b@.take(i + 1) =~= b@.take(i as int).push(b@[i as int]));
            if a@.take(i + 1) == b@.take(i + 1) {
                assert(a@.take(i + 1).drop_last() =~= a@.take(i as int));
                assert(b@.take(i + 1).drop_last() =~= b@.take(i as int));
                assert(a@.take(i + 1).last() == b@.take(i + 1).last());
            }
        }
        difference = next;
        i += 1;
    }
    proof {
        if a@.len() == b@.len() {
            assert(a@.take(n as int) =~= a@);
            assert(b@.take(n as int) =~= b@);
        }
    }
    a.len() == b.len() && difference == 0
}

/// Whether the value of an `Authorization` header presents exactly the
/// given credentials.
pub fn authorized(header: &str, credentials: &Credentials) -> (r: bool)
    ensures
        r == grants(header@, credentials@),
{
    let chars = chars_of(header);
    let words = split_whitespace_chars(chars.as_slice());
    if words.len() != 2 {
        return false;
    }
    assert(texts(words@)[0] == words@[0]@);
    assert(texts(words@)[1] == words@[1]@);
    let scheme = chars_of("Basic");
    if !chars_eq(words[0].as_slice(), scheme.as_slice()) {
        return false;
    }
    let encoded = string_of(words[1].as_slice());
    match base64_decode(encoded.as_str()) {
        Some(bytes) => names(bytes, credentials),
        None => false,
    }
}

/// Whether decoded credentials name exactly the given credentials.
pub fn names(bytes: Vec<u8>, credentials: &Credentials) -> (r: bool)
    ensures
        r == (named(bytes@) == Some(credentials@)),
{
    let text = match utf8_text(bytes) {
        Ok(text) => text,
        Err(_) => {
            return false;
        },
    };
    let decoded = chars_of(text.as_str());
    match split_once_chars(decoded.as_slice(), ':') {
        Some((user, password)) => {
            let expected_user = chars_of(credentials.username.as_str());
            let expected_password = chars_of(credentials.password.as_str());
            let user_ok = fixed_time_eq(user.as_slice(), expected_user.as_slice());
            let password_ok = fixed_time_eq(password.as_slice(), expected_password.as_slice());
            if user_ok {
                password_ok
            } else {
                false
            }
        },
        None => false,
    }
}

} // verus!
