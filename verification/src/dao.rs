//! Link records, short-path generation, and the link store.
//!
//! A link maps a short, system-generated, globally unique path to preview
//! metadata and three per-platform destination URLs. The store enforces the
//! uniqueness invariants: no two links share an id, and no two links share a
//! path; a path collision during creation is retried with a fresh path, a
//! bounded number of times, and never silently overwrites.

use vstd::prelude::*;

use crate::pattern::str_eq;
use crate::Error;
use rand::RngExt;

verus! {

/// The mutable fields of a link: preview metadata and the three per-platform
/// destinations. An update replaces all of them atomically.
#[derive(Debug, Clone, PartialEq, Eq)]
pub struct LinkData {
    pub title: String,
    pub description: String,
    pub image_url: String,

    pub web_destination: String,
    pub ios_destination: String,
    pub android_destination: String,
}

/// A stored link: an id and a public lookup path, both immutable for the
/// record's lifetime, plus the replaceable `LinkData` fields.
#[derive(Debug, PartialEq, Eq)]
pub struct Link {
    pub id: u64,
    pub link_path: String,

    pub title: String,
    pub description: String,
    pub image_url: String,

    pub web_destination: String,
    pub ios_destination: String,
    pub android_destination: String,
}

impl Clone for Link {
    fn clone(&self) -> (r: Link)
        ensures
            r == *self,
    {
        Link {
            id: self.id,
            link_path: self.link_path.clone(),
            title: self.title.clone(),
            description: self.description.clone(),
            image_url: self.image_url.clone(),
            web_destination: self.web_destination.clone(),
            ios_destination: self.ios_destination.clone(),
            android_destination: self.android_destination.clone(),
        }
    }
}

/// The mutable fields of `link` are exactly those of `data`.
pub open spec fn has_data(link: Link, data: LinkData) -> bool {
    &&& link.title@ == data.title@
    &&& link.description@ == data.description@
    &&& link.image_url@ == data.image_url@
    &&& link.web_destination@ == data.web_destination@
    &&& link.ios_destination@ == data.ios_destination@
    &&& link.android_destination@ == data.android_destination@
}

/// Number of characters in a generated path: 24 symbols over a 36-symbol
/// alphabet give enough entropy that accidental collisions are negligible.
pub const PATH_LENGTH: usize = 24;

/// Number of symbols in the path alphabet `[A-Z0-9]`.
pub const ALPHABET_SIZE: usize = 36;

/// A character of the path alphabet `[A-Z0-9]`.
pub open spec fn is_path_char(c: char) -> bool {
    ||| (65 <= c as u32 && c as u32 <= 90)
    ||| (48 <= c as u32 && c as u32 <= 57)
}

/// A well-formed generated path: exactly `PATH_LENGTH` characters of `[A-Z0-9]`.
pub open spec fn is_valid_path(s: Seq<char>) -> bool {
    &&& s.len() == PATH_LENGTH
    &&& forall|i: int| 0 <= i < s.len() ==> is_path_char(s[i])
}

/// Relies on `rand::rng` and `rand::RngExt::random_range`: draws a uniformly
/// distributed value of `0..bound`; the range is nonempty since `bound > 0`,
/// so the call does not panic, and the result is below `bound`.
#[verifier::external_body]
fn random_below(bound: usize) -> (r: usize)
    requires
        bound > 0,
    ensures
        r < bound,
{
    rand::rng().random_range(0..bound)
}

/// The byte of the path alphabet at index `i`: `A`-`Z`, then `0`-`9`.
pub open spec fn spec_alphabet_byte(i: int) -> u8 {
    if i < 26 {
        (65 + i) as u8
    } else {
        (48 + (i - 26)) as u8
    }
}

fn alphabet_byte(i: usize) -> (b: u8)
    requires
        i < ALPHABET_SIZE,
    ensures
        b == spec_alphabet_byte(i as int),
        is_path_char(b as char),
{
    if i < 26 {
        65 + (i as u8)
    } else {
        48 + (i as u8 - 26)
    }
}

/// Relies on `String::from_utf8`: bytes below 128 are valid UTF-8 and decode
/// to one character per byte, so the call cannot fail.
#[verifier::external_body]
fn ascii_to_string(bytes: Vec<u8>) -> (r: String)
    requires
        forall|i: int| 0 <= i < bytes@.len() ==> bytes@[i] < 128,
    ensures
        r@.len() == bytes@.len(),
        forall|i: int| 0 <= i < bytes@.len() ==> r@[i] == bytes@[i] as char,
{
    String::from_utf8(bytes).unwrap_or_default()
}

/// The path spelled by a sequence of alphabet indices: the deterministic
/// core of path generation, one alphabet character per index, in order.
pub fn path_from_indices(indices: &Vec<usize>) -> (r: String)
    requires
        forall|i: int| 0 <= i < indices@.len() ==> indices@[i] < ALPHABET_SIZE,
    ensures
        r@.len() == indices@.len(),
        forall|i: int|
            0 <= i < indices@.len() ==> r@[i] == spec_alphabet_byte(indices@[i] as int) as char,
        indices@.len() == PATH_LENGTH ==> is_valid_path(r@),
{
    let mut bytes: Vec<u8> = Vec::new();
    let mut k: usize = 0;
    while k < indices.len()
        invariant
            forall|i: int| 0 <= i < indices@.len() ==> indices@[i] < ALPHABET_SIZE,
            bytes@.len() == k,
            k <= indices@.len(),
            forall|i: int|
                0 <= i < k ==> bytes@[i] == spec_alphabet_byte(indices@[i] as int) && is_path_char(
                    #[trigger] bytes@[i] as char,
                ) && bytes@[i] < 128,
        decreases indices@.len() - k,
    {
        bytes.push(alphabet_byte(indices[k]));
        k += 1;
    }
    ascii_to_string(bytes)
}

/// Produces a fresh candidate path: `PATH_LENGTH` characters drawn uniformly,
/// independently per character, from the alphabet `[A-Z0-9]`.
pub fn generate_link_path() -> (r: String)
    ensures
        is_valid_path(r@),
{
    let mut indices: Vec<usize> = Vec::new();
    let mut k: usize = 0;
    while k < PATH_LENGTH
        invariant
            indices@.len() == k,
            k <= PATH_LENGTH,
            forall|i: int| 0 <= i < k ==> indices@[i] < ALPHABET_SIZE,
        decreases PATH_LENGTH - k,
    {
        indices.push(random_below(ALPHABET_SIZE));
        k += 1;
    }
    path_from_indices(&indices)
}

/// A source of candidate paths for newly created links. The randomness is
/// injected through this trait: the store relies only on every candidate
/// being a well-formed path, never on uniqueness, which the store itself
/// enforces by checking and retrying.
pub trait PathGenerator {
    fn generate(&mut self) -> (r: String)
        ensures
            is_valid_path(r@),
    ;
}

/// The default generator: uniform random selection over the fixed alphabet.
pub struct RandomPathGenerator;

impl PathGenerator for RandomPathGenerator {
    fn generate(&mut self) -> String {
        generate_link_path()
    }
}

/// Hard ceiling on path-generation attempts during one creation.
pub const MAX_CREATE_ATTEMPTS: usize = 16;

/// The link store: a table of links with store-enforced uniqueness of ids
/// and paths. Its view is the sequence of stored records.
pub struct LinkStore {
    links: Vec<Link>,
    next_id: u64,
}

impl View for LinkStore {
    type V = Seq<Link>;

    closed spec fn view(&self) -> Seq<Link> {
        self.links@
    }
}

impl LinkStore {
    /// The id the next created link will receive.
    pub closed spec fn spec_next_id(&self) -> u64 {
        self.next_id
    }

    /// Well-formed store: ids and paths are pairwise distinct, and every
    /// stored id is below the next id to be assigned.
    pub open spec fn wf(&self) -> bool {
        &&& forall|i: int, j: int| 0 <= i < j < self@.len() ==> self@[i].id != self@[j].id
        &&& forall|i: int, j: int|
            0 <= i < j < self@.len() ==> self@[i].link_path@ != self@[j].link_path@
        &&& forall|i: int| 0 <= i < self@.len() ==> self@[i].id < self.spec_next_id()
    }

    /// Some stored link has this id.
    pub open spec fn spec_has_id(&self, link_id: u64) -> bool {
        exists|k: int| 0 <= k < self@.len() && self@[k].id == link_id
    }

    /// Some stored link has this path.
    pub open spec fn spec_has_path(&self, path: Seq<char>) -> bool {
        exists|k: int| 0 <= k < self@.len() && self@[k].link_path@ == path
    }

    /// The stored link with this id, if any.
    pub open spec fn spec_get(&self, link_id: u64) -> Option<Link> {
        if self.spec_has_id(link_id) {
            Some(self@[choose|k: int| 0 <= k < self@.len() && self@[k].id == link_id])
        } else {
            None
        }
    }

    /// The stored link with this path, if any.
    pub open spec fn spec_get_by_path(&self, path: Seq<char>) -> Option<Link> {
        if self.spec_has_path(path) {
            Some(self@[choose|k: int| 0 <= k < self@.len() && self@[k].link_path@ == path])
        } else {
            None
        }
    }

    /// No two stored links ever share a path: in a well-formed store, two
    /// indices whose links carry the same path are the same index. Creation
    /// preserves well-formedness even under colliding candidate paths, since
    /// a collision is retried with a fresh path, so this holds across any
    /// sequence of store operations.
    pub proof fn lemma_paths_unique(&self, i: int, j: int)
        requires
            self.wf(),
            0 <= i < self@.len(),
            0 <= j < self@.len(),
            self@[i].link_path@ == self@[j].link_path@,
        ensures
            i == j,
    {
    }

    /// An empty store.
    pub fn new() -> (r: LinkStore)
        ensures
            r.wf(),
            r@ == Seq::<Link>::empty(),
            r.spec_next_id() == 0,
    {
        LinkStore { links: Vec::new(), next_id: 0 }
    }

    /// Whether some stored link uses this path.
    pub fn has_path(&self, link_path: &str) -> (r: bool)
        ensures
            r == self.spec_has_path(link_path@),
    {
        let mut i: usize = 0;
        while i < self.links.len()
            invariant
                i <= self@.len(),
                forall|k: int| 0 <= k < i ==> self@[k].link_path@ != link_path@,
            decreases self@.len() - i,
        {
            if str_eq(self.links[i].link_path.as_str(), link_path) {
                return true;
            }
            i += 1;
        }
        false
    }

    /// Looks a link up by id.
    pub fn get_link(&self, link_id: u64) -> (r: Option<Link>)
        requires
            self.wf(),
        ensures
            r == self.spec_get(link_id),
    {
        let mut i: usize = 0;
        while i < self.links.len()
            invariant
                self.wf(),
                i <= self@.len(),
                forall|k: int| 0 <= k < i ==> self@[k].id != link_id,
            decreases self@.len() - i,
        {
            if self.links[i].id == link_id {
                return Some(self.links[i].clone());
            }
            i += 1;
        }
        None
    }

    /// Looks a link up by its public path.
    pub fn get_link_by_link_path(&self, link_path: &str) -> (r: Option<Link>)
        requires
            self.wf(),
        ensures
            r == self.spec_get_by_path(link_path@),
    {
        let mut i: usize = 0;
        while i < self.links.len()
            invariant
                self.wf(),
                i <= self@.len(),
                forall|k: int| 0 <= k < i ==> self@[k].link_path@ != link_path@,
            decreases self@.len() - i,
        {
            if str_eq(self.links[i].link_path.as_str(), link_path) {
                return Some(self.links[i].clone());
            }
            i += 1;
        }
        None
    }

    /// All stored links, in insertion order.
    pub fn list_links(&self) -> (r: Vec<Link>)
        ensures
            r@ == self@,
    {
        let mut out: Vec<Link> = Vec::new();
        let mut i: usize = 0;
        while i < self.links.len()
            invariant
                i <= self@.len(),
                out@ =~= self@.subrange(0, i as int),
            decreases self@.len() - i,
        {
            out.push(self.links[i].clone());
            i += 1;
        }
        proof {
            assert(out@ =~= self@);
        }
        out
    }

    /// Creates a link: assigns the next id and a freshly generated path that
    /// no stored link uses, retrying generation a bounded number of times on
    /// collision before giving up with `ExhaustedPathSpace`. The new record
    /// is immediately visible under its path (read-your-writes).
    pub fn create_link<G: PathGenerator>(&mut self, generator: &mut G, data: LinkData) -> (r: Result<
        Link,
        Error,
    >)
        requires
            old(self).wf(),
            old(self).spec_next_id() < u64::MAX,
        ensures
            final(self).wf(),
            match r {
                Ok(link) => {
                    &&& link.id == old(self).spec_next_id()
                    &&& is_valid_path(link.link_path@)
                    &&& !old(self).spec_has_path(link.link_path@)
                    &&& has_data(link, data)
                    &&& final(self)@ == old(self)@.push(link)
                    &&& final(self).spec_next_id() == old(self).spec_next_id() + 1
                    &&& final(self).spec_get_by_path(link.link_path@) == Some(link)
                },
                Err(e) => {
                    &&& e == Error::ExhaustedPathSpace
                    &&& *final(self) == *old(self)
                    &&& old(self)@.len() > 0
                },
            },
    {
        let mut attempts: usize = 0;
        while attempts < MAX_CREATE_ATTEMPTS
            invariant
                *self == *old(self),
                self.wf(),
                self.spec_next_id() < u64::MAX,
                attempts <= MAX_CREATE_ATTEMPTS,
                attempts > 0 ==> self@.len() > 0,
            decreases MAX_CREATE_ATTEMPTS - attempts,
        {
            let link_path = generator.generate();
            if !self.has_path(link_path.as_str()) {
                let ghost pre = *self;
                let link = Link {
                    id: self.next_id,
                    link_path,
                    title: data.title,
                    description: data.description,
                    image_url: data.image_url,
                    web_destination: data.web_destination,
                    ios_destination: data.ios_destination,
                    android_destination: data.android_destination,
                };
                let result = link.clone();
                self.links.push(link);
                self.next_id = self.next_id + 1;
                proof {
                    let n = pre@.len() as int;
                    assert(self@ == pre@.push(result));
                    assert(self@[n] == result);
                    assert forall|i: int| 0 <= i < n implies self@[i] == pre@[i] by {}
                    assert(self.wf());
                    assert(self.spec_has_path(result.link_path@));
                    let k = choose|k: int|
                        0 <= k < self@.len() && self@[k].link_path@ == result.link_path@;
                    if k < n {
                        assert(pre@[k].link_path@ == result.link_path@);
                        assert(pre.spec_has_path(result.link_path@));
                    }
                    assert(k == n);
                    assert(self.spec_get_by_path(result.link_path@) == Some(result));
                }
                return Ok(result);
            }
            attempts += 1;
        }
        Err(Error::ExhaustedPathSpace)
    }

    /// Replaces every mutable field of the link with this id, atomically;
    /// returns the updated record, or `None` if the id is absent, which is
    /// not an error. Id and path never change.
    pub fn update_link(&mut self, link_id: u64, data: LinkData) -> (r: Option<Link>)
        requires
            old(self).wf(),
        ensures
            final(self).wf(),
            final(self).spec_next_id() == old(self).spec_next_id(),
            match r {
                Some(link) => {
                    &&& old(self).spec_has_id(link_id)
                    &&& link.id == link_id
                    &&& has_data(link, data)
                    &&& ({
                        let k = choose|k: int|
                            0 <= k < old(self)@.len() && old(self)@[k].id == link_id;
                        link.link_path@ == old(self)@[k].link_path@ && final(self)@ == old(
                            self,
                        )@.update(k, link)
                    })
                },
                None => {
                    &&& !old(self).spec_has_id(link_id)
                    &&& *final(self) == *old(self)
                },
            },
    {
        let mut i: usize = 0;
        while i < self.links.len()
            invariant
                *self == *old(self),
                self.wf(),
                i <= self@.len(),
                forall|k: int| 0 <= k < i ==> self@[k].id != link_id,
            decreases self@.len() - i,
        {
            if self.links[i].id == link_id {
                let link = Link {
                    id: link_id,
                    link_path: self.links[i].link_path.clone(),
                    title: data.title,
                    description: data.description,
                    image_url: data.image_url,
                    web_destination: data.web_destination,
                    ios_destination: data.ios_destination,
                    android_destination: data.android_destination,
                };
                let result = link.clone();
                self.links[i] = link;
                return Some(result);
            }
            i += 1;
        }
        None
    }
}

} // verus!
