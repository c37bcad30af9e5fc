use vstd::prelude::*;

verus! {

/// Whether `needle` occurs contiguously inside `hay`.
pub open spec fn contains_subseq(hay: Seq<u8>, needle: Seq<u8>) -> bool {
    exists|off: int|
        0 <= off <= hay.len() - needle.len() && #[trigger] hay.subrange(off, off + needle.len())
            == needle
}

/// What makes a piece of mail important to a user: the sender's address is
/// one of the user's listed addresses, or the subject carries one of the
/// user's listed tags. Texts are compared by their UTF-8 bytes.
pub open spec fn is_important(
    emails: Seq<String>,
    tags: Seq<String>,
    email: String,
    subject: String,
) -> bool {
    (exists|i: int| 0 <= i < emails.len() && #[trigger] emails[i]@ == email@) || (exists|i: int|
        0 <= i < tags.len() && contains_subseq(
            vstd::utf8::encode_utf8(subject@),
            vstd::utf8::encode_utf8(#[trigger] tags[i]@),
        ))
}

/// Whether `needle` matches `hay` at offset `off`.
fn match_at(hay: &[u8], needle: &[u8], off: usize) -> (b: bool)
    requires
        off + needle@.len() <= hay@.len(),
    ensures
        b == (hay@.subrange(off as int, off as int + needle@.len() as int) == needle@),
{
    let n = needle.len();
    let m = hay.len();
    let mut j: usize = 0;
    while j < n
        invariant
            j <= n,
            n == needle@.len(),
            m == hay@.len(),
            off + n <= m,
            forall|i: int| 0 <= i < j ==> hay@[off + i] == needle@[i],
        decreases n - j,
    {
        if hay[off + j] != needle[j] {
            proof {
                assert(hay@.subrange(off as int, off as int + needle@.len() as int)[j as int]
                    == hay@[off + j]);
            }
            return false;
        }
        j = j + 1;
    }
    proof {
        assert(hay@.subrange(off as int, off as int + needle@.len() as int) =~= needle@);
    }
    true
}

/// Whether `needle` occurs contiguously inside `hay`.
fn contains_bytes(hay: &[u8], needle: &[u8]) -> (b: bool)
    ensures
        b == contains_subseq(hay@, needle@),
{
    let n = needle.len();
    let m = hay.len();
    if n > m {
        return false;
    }
    if n == 0 {
        proof {
            assert(hay@.subrange(0, 0 + needle@.len() as int) =~= needle@);
        }
        return true;
    }
    let mut off: usize = 0;
    while off <= m - n
        invariant
            n == needle@.len(),
            m == hay@.len(),
            0 < n <= m,
            off <= m - n + 1,
            forall|o: int|
                0 <= o < off ==> #[trigger] hay@.subrange(o, o + needle@.len() as int) != needle@,
        decreases m - off,
    {
        if match_at(hay, needle, off) {
            return true;
        }
        off = off + 1;
    }
    false
}

/// Decides, from a user's stored lists, whether a piece of mail is important
/// — and should therefore be delivered regardless of the user's working
/// hours.
#[derive(Debug)]
pub struct ImportanceChecker {
    important_emails: Vec<String>,
    tags: Vec<String>,
}

impl ImportanceChecker {
    /// The user's listed sender addresses.
    pub closed spec fn emails(&self) -> Seq<String> {
        self.important_emails@
    }

    /// The user's listed subject tags.
    pub closed spec fn tags_list(&self) -> Seq<String> {
        self.tags@
    }

    /// A checker over the user's stored lists. Fetching the lists is the
    /// caller's storage lookup; the checker itself is pure.
    pub fn new(important_emails: Vec<String>, tags: Vec<String>) -> (c: ImportanceChecker)
        ensures
            c.emails() == important_emails@,
            c.tags_list() == tags@,
    {
        ImportanceChecker { important_emails, tags }
    }

    /// Whether mail from `email` with this `subject` is important to the
    /// user.
    pub fn check(&self, email: &String, subject: &String) -> (b: bool)
        ensures
            b == is_important(self.emails(), self.tags_list(), *email, *subject),
    {
        let n = self.important_emails.len();
        let mut k: usize = 0;
        while k < n
            invariant
                n == self.important_emails@.len(),
                k <= n,
                forall|i: int| 0 <= i < k ==> #[trigger] self.important_emails@[i]@ != email@,
            decreases n - k,
        {
            if self.important_emails[k].eq(email) {
                return true;
            }
            k = k + 1;
        }
        let m = self.tags.len();
        let mut t: usize = 0;
        while t < m
            invariant
                m == self.tags@.len(),
                n == self.important_emails@.len(),
                t <= m,
                forall|i: int| 0 <= i < n ==> #[trigger] self.important_emails@[i]@ != email@,
                forall|i: int|
                    0 <= i < t ==> !contains_subseq(
                        vstd::utf8::encode_utf8(subject@),
                        vstd::utf8::encode_utf8(#[trigger] self.tags@[i]@),
                    ),
            decreases m - t,
        {
            if contains_bytes(subject.as_str().as_bytes(), self.tags[t].as_str().as_bytes()) {
                return true;
            }
            t = t + 1;
        }
        false
    }
}

} // verus!
