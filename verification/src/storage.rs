//! The key-value file-append storage experiment: records are lines of the
//! form `<id>%%%<data>`, keyed by a random seven-character alphanumeric id.
//!
//! The verified part is the record format itself — encoding a record line,
//! splitting a line into its key and its value, and looking a key up in a
//! list of lines. Reading and appending the backing file is left to callers.

use vstd::prelude::*;
use vstd::string::StrSliceExecFns;
use vstd::string::StringExecFns;

use rand::Rng;

use crate::text::text_views;

verus! {

/// A stored record: its storage id and the data stored under it.
pub struct StoredData<T> {
    pub id: String,
    pub data: T,
}

#[derive(Debug)]
pub enum StoreErr {
    UnknownError,
}

#[derive(Debug)]
pub enum LoadErr {
    UnknownError,
}

/// A value that can be put into storage.
pub trait Storeable: Sized {
    fn store(&self) -> Result<StoredData<Self>, StoreErr>;
}

/// A value that can be looked up in storage by id.
pub trait Loadable: Sized {
    fn load(id: String) -> Result<Option<Self>, LoadErr>;
}

pub struct Pessoa {
    pub nome: String,
}

impl Pessoa {
    pub fn new(nome: String) -> (p: Pessoa)
        ensures
            p.nome@ == nome@,
    {
        Pessoa { nome }
    }
}

impl Storeable for Pessoa {
    fn store(&self) -> Result<StoredData<Pessoa>, StoreErr> {
        Err(StoreErr::UnknownError)
    }
}

/// A character the id alphabet admits: an ASCII letter or digit.
pub open spec fn is_id_char(c: char) -> bool {
    ('a' <= c && c <= 'z') || ('A' <= c && c <= 'Z') || ('0' <= c && c <= '9')
}

/// Relies on rand's `thread_rng` and the `Alphanumeric` distribution: each
/// sample is one byte drawn from the ASCII letters and digits, so seven
/// samples make a seven-character alphanumeric string.
#[verifier::external_body]
fn random_id() -> (r: String)
    ensures
        r@.len() == 7,
        forall|i: int| 0 <= i < r@.len() ==> is_id_char(#[trigger] r@[i]),
{
    rand::thread_rng()
        .sample_iter(&rand::distributions::Alphanumeric)
        .take(7)
        .map(char::from)
        .collect()
}

/// Whether a record delimiter starts at position `i`.
pub open spec fn delim_at(s: Seq<char>, i: int) -> bool {
    0 <= i && i + 3 <= s.len() && s[i] == '%' && s[i + 1] == '%' && s[i + 2] == '%'
}

/// The position of the first record delimiter at or after `k`, if any.
pub open spec fn first_delim_from(s: Seq<char>, k: int) -> Option<int>
    decreases s.len() - k,
{
    if k < 0 || k + 3 > s.len() {
        None
    } else if delim_at(s, k) {
        Some(k)
    } else {
        first_delim_from(s, k + 1)
    }
}

/// The key of a record line: what stands before the first delimiter (the
/// whole line when there is none).
pub open spec fn row_key(s: Seq<char>) -> Seq<char> {
    match first_delim_from(s, 0) {
        None => s,
        Some(k) => s.take(k),
    }
}

/// The value of a record line: what stands between the first delimiter and
/// the next one (or the end); a line without a delimiter has no value.
pub open spec fn row_val(s: Seq<char>) -> Option<Seq<char>> {
    match first_delim_from(s, 0) {
        None => None,
        Some(k) => Some(
            match first_delim_from(s, k + 3) {
                None => s.subrange(k + 3, s.len() as int),
                Some(k2) => s.subrange(k + 3, k2),
            },
        ),
    }
}

/// The value of the first line whose key is `id`: `None` when no line
/// matches, `Some(v)` when one does and carries the value `v`.
pub open spec fn find_stored(rows: Seq<Seq<char>>, id: Seq<char>) -> Option<Option<Seq<char>>>
    decreases rows.len(),
{
    if rows.len() == 0 {
        None
    } else if row_key(rows[0]) == id {
        Some(row_val(rows[0]))
    } else {
        find_stored(rows.drop_first(), id)
    }
}

proof fn lemma_first_delim_some(s: Seq<char>, k0: int, j: int)
    requires
        first_delim_from(s, k0) == Some(j),
    ensures
        k0 <= j,
        delim_at(s, j),
    decreases s.len() - k0,
{
    if k0 < 0 || k0 + 3 > s.len() {
    } else if delim_at(s, k0) {
    } else {
        lemma_first_delim_some(s, k0 + 1, j);
    }
}

fn find_delim_from(s: &str, n: usize, start: usize) -> (r: Option<usize>)
    requires
        n == s@.len(),
        start <= n,
    ensures
        (match (r, first_delim_from(s@, start as int)) {
            (Some(k), Some(j)) => k as int == j,
            (None, None) => true,
            _ => false,
        }),
{
    let mut k = start;
    while k < n && n - k >= 3
        invariant
            n == s@.len(),
            start <= k <= n,
            first_delim_from(s@, start as int) == first_delim_from(s@, k as int),
        decreases n - k,
    {
        let c0 = s.get_char(k);
        let c1 = s.get_char(k + 1);
        let c2 = s.get_char(k + 2);
        if c0 == '%' && c1 == '%' && c2 == '%' {
            proof {
                assert(delim_at(s@, k as int));
            }
            return Some(k);
        }
        proof {
            assert(!delim_at(s@, k as int));
        }
        k = k + 1;
    }
    proof {
        assert(first_delim_from(s@, k as int) is None);
    }
    None
}

/// Splits a record line into its key and, where a delimiter is present, its
/// value.
pub fn row_parts(s: &str) -> (r: (String, Option<String>))
    ensures
        r.0@ == row_key(s@),
        (match (r.1, row_val(s@)) {
            (Some(a), Some(b)) => a@ == b,
            (None, None) => true,
            _ => false,
        }),
{
    let n = s.unicode_len();
    match find_delim_from(s, n, 0) {
        None => (s.to_owned(), None),
        Some(k) => {
            proof {
                lemma_first_delim_some(s@, 0, k as int);
            }
            let key = s.substring_char(0, k).to_owned();
            proof {
                assert(key@ =~= s@.take(k as int));
            }
            let vstart = k + 3;
            let vend = match find_delim_from(s, n, vstart) {
                None => n,
                Some(k2) => {
                    proof {
                        lemma_first_delim_some(s@, vstart as int, k2 as int);
                    }
                    k2
                },
            };
            let val = s.substring_char(vstart, vend).to_owned();
            (key, Some(val))
        },
    }
}

fn find_from(rows: &Vec<String>, key: &String, i: usize) -> (r: Option<String>)
    requires
        i <= rows@.len(),
        (match find_stored(text_views(rows@).skip(i as int), key@) {
            Some(v) => v is Some,
            None => true,
        }),
    ensures
        (match (r, find_stored(text_views(rows@).skip(i as int), key@)) {
            (Some(d), Some(v)) => v matches Some(x) && d@ == x,
            (None, None) => true,
            _ => false,
        }),
    decreases rows@.len() - i,
{
    if i == rows.len() {
        proof {
            assert(text_views(rows@).skip(i as int) =~= Seq::<Seq<char>>::empty());
        }
        None
    } else {
        proof {
            assert(text_views(rows@).skip(i as int)[0] == rows@[i as int]@);
            assert(text_views(rows@).skip(i as int).drop_first() =~= text_views(rows@).skip(
                i as int + 1,
            ));
        }
        let parts = row_parts(rows[i].as_str());
        if parts.0 == *key {
            match parts.1 {
                Some(v) => Some(v),
                None => {
                    proof {
                        assert(false);
                    }
                    None
                },
            }
        } else {
            find_from(rows, key, i + 1)
        }
    }
}

/// Looks the id up among the record lines: the first line whose key equals
/// the id yields its value. A matching line always carries a delimiter here;
/// a line equal to the bare id alone has no value to hand back, so such
/// inputs are left out.
pub fn find_record(rows: &Vec<String>, id: &str) -> (r: Option<String>)
    requires
        (match find_stored(text_views(rows@), id@) {
            Some(v) => v is Some,
            None => true,
        }),
    ensures
        (match (r, find_stored(text_views(rows@), id@)) {
            (Some(d), Some(v)) => v matches Some(x) && d@ == x,
            (None, None) => true,
            _ => false,
        }),
{
    let key = String::from_str(id);
    proof {
        assert(text_views(rows@).skip(0) =~= text_views(rows@));
    }
    find_from(rows, &key, 0)
}

/// Encodes one record line: the id, the delimiter, the data.
pub fn encode_record(id: &str, data: &str) -> (r: String)
    ensures
        r@ == id@ + "%%%"@ + data@,
{
    let mut s = id.to_owned();
    s.append("%%%");
    s.append(data);
    proof {
        assert(s@ =~= id@ + "%%%"@ + data@);
    }
    s
}

/// Draws a fresh storage id and encodes the record line for the data: the
/// id is seven alphanumeric characters, and the line is the id, the
/// delimiter, then the data.
pub fn new_record(data: &str) -> (r: (String, String))
    ensures
        r.0@.len() == 7,
        forall|i: int| 0 <= i < r.0@.len() ==> is_id_char(#[trigger] r.0@[i]),
        r.1@ == r.0@ + "%%%"@ + data@,
{
    let id = random_id();
    let line = encode_record(id.as_str(), data);
    (id, line)
}

} // verus!
