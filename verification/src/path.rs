//! Paths as a POSIX system writes them: bytes, with components between slashes.
//! On a system that writes them otherwise, they are converted on their way in
//! and out, and messages show them with slashes.

use vstd::prelude::*;

verus! {

/// The byte that separates the components of a path.
pub const SLASH: u8 = 0x2f;

/// The byte of which the component for the current directory is made.
pub const DOT: u8 = 0x2e;

/// A path, held as the bytes that the system knows it by. Any bytes will do:
/// a path need not be valid UTF-8.
#[derive(Debug, PartialEq, Eq)]
pub struct FsPath {
    pub bytes: Vec<u8>,
}

impl View for FsPath {
    type V = Seq<u8>;

    open spec fn view(&self) -> Seq<u8> {
        self.bytes@
    }
}

impl DeepView for FsPath {
    type V = Seq<u8>;

    open spec fn deep_view(&self) -> Seq<u8> {
        self.bytes@
    }
}

impl Clone for FsPath {
    fn clone(&self) -> (out: Self)
        ensures
            out@ == self@,
    {
        let bytes = self.bytes.clone();
        assert(bytes@ =~= self.bytes@);
        FsPath { bytes }
    }
}

// ----------------------------------------------------------------------------
// What a path means
// ----------------------------------------------------------------------------

/// `p` without what adds no component at its end: slashes, and the component
/// `.` unless it stands alone. A path that is only the root stays one slash.
pub open spec fn normal_end(p: Seq<u8>) -> Seq<u8>
    decreases p.len(),
{
    if p.len() > 1 && (p.last() == SLASH || (p.last() == DOT && p[p.len() - 2] == SLASH)) {
        normal_end(p.drop_last())
    } else {
        p
    }
}

/// Where the part of `p` behind its last slash begins.
pub open spec fn last_start(p: Seq<u8>) -> nat
    decreases p.len(),
{
    if p.len() == 0 || p.last() == SLASH {
        p.len()
    } else {
        last_start(p.drop_last())
    }
}

/// The last component of `p`. It is empty for the root and for the empty path.
pub open spec fn last_component(p: Seq<u8>) -> Seq<u8> {
    let q = normal_end(p);
    q.skip(last_start(q) as int)
}

/// The component that stands for the current directory.
pub open spec fn current_dir() -> Seq<u8> {
    seq![DOT]
}

/// The component that stands for the directory above.
pub open spec fn upper_dir() -> Seq<u8> {
    seq![DOT, DOT]
}

/// Whether `name` can name a file: not empty, no slash, neither `.` nor `..`.
pub open spec fn is_plain_name(name: Seq<u8>) -> bool {
    &&& name.len() > 0
    &&& !name.contains(SLASH)
    &&& name != current_dir()
    &&& name != upper_dir()
}

/// The last component of `p`, if it names a file.
pub open spec fn file_name(p: Seq<u8>) -> Option<Seq<u8>> {
    let name = last_component(p);
    if name.len() == 0 || name == current_dir() || name == upper_dir() {
        None
    } else {
        Some(name)
    }
}

/// `p` without its last component. The root and the empty path have no parent.
pub open spec fn parent(p: Seq<u8>) -> Option<Seq<u8>> {
    let q = normal_end(p);
    if last_component(p).len() == 0 {
        None
    } else {
        Some(normal_end(q.take(last_start(q) as int)))
    }
}

/// `tail` as seen from `base`: an absolute `tail` replaces `base`, any other
/// one is appended, with a slash between the two where `base` does not bring
/// one.
pub open spec fn joined(base: Seq<u8>, tail: Seq<u8>) -> Seq<u8> {
    if tail.len() > 0 && tail[0] == SLASH {
        tail
    } else if base.len() > 0 && base.last() != SLASH {
        base.push(SLASH) + tail
    } else {
        base + tail
    }
}

/// `p` with `name` in place of its file name, or behind it where it has none.
pub open spec fn with_file_name(p: Seq<u8>, name: Seq<u8>) -> Seq<u8> {
    match (file_name(p), parent(p)) {
        (Some(_), Some(dir)) => joined(dir, name),
        _ => joined(p, name),
    }
}

// ----------------------------------------------------------------------------
// Executable counterparts
// ----------------------------------------------------------------------------

/// A copy of the bytes `from..to` of `bytes`.
fn copy_range(bytes: &Vec<u8>, from: usize, to: usize) -> (out: Vec<u8>)
    requires
        from <= to <= bytes.len(),
    ensures
        out@ == bytes@.subrange(from as int, to as int),
{
    let mut out: Vec<u8> = Vec::new();
    let mut i: usize = from;
    while i < to
        invariant
            from <= i <= to <= bytes.len(),
            out@ == bytes@.subrange(from as int, i as int),
        decreases to - i,
    {
        out.push(bytes[i]);
        i += 1;
    }
    out
}

/// Whether two slices hold the same bytes.
pub fn bytes_eq(a: &[u8], b: &[u8]) -> (same: bool)
    ensures
        same == (a@ == b@),
{
    if a.len() != b.len() {
        return false;
    }
    let mut i: usize = 0;
    while i < a.len()
        invariant
            i <= a.len(),
            a.len() == b.len(),
            forall|j: int| 0 <= j < i ==> a[j] == b[j],
        decreases a.len() - i,
    {
        if a[i] != b[i] {
            return false;
        }
        i += 1;
    }
    assert(a@ =~= b@);
    true
}

impl FsPath {
    /// The path written in `s`.
    pub fn from_text(s: &str) -> (out: FsPath)
        ensures
            out@ == vstd::utf8::encode_utf8(s@),
    {
        let source = s.as_bytes();
        let mut bytes: Vec<u8> = Vec::new();
        bytes.extend_from_slice(source);
        assert(bytes@ =~= source@);
        FsPath { bytes }
    }

    /// The length of the path without what adds no component at its end.
    fn normal_len(&self, upto: usize) -> (end: usize)
        requires
            upto <= self.bytes.len(),
        ensures
            end <= upto,
            self@.take(end as int) == normal_end(self@.take(upto as int)),
    {
        let mut end: usize = upto;
        while end > 1 && (self.bytes[end - 1] == SLASH || (self.bytes[end - 1] == DOT
            && self.bytes[end - 2] == SLASH))
            invariant
                end <= upto <= self.bytes.len(),
                normal_end(self@.take(end as int)) == normal_end(self@.take(upto as int)),
            decreases end,
        {
            proof {
                assert(self@.take(end as int).drop_last() =~= self@.take(end - 1));
            }
            end -= 1;
        }
        end
    }

    /// Where the part behind the last slash of the first `end` bytes begins.
    fn last_start(&self, end: usize) -> (start: usize)
        requires
            end <= self.bytes.len(),
        ensures
            start <= end,
            start == last_start(self@.take(end as int)),
    {
        let mut start: usize = end;
        while start > 0 && self.bytes[start - 1] != SLASH
            invariant
                start <= end <= self.bytes.len(),
                last_start(self@.take(start as int)) == last_start(self@.take(end as int)),
            decreases start,
        {
            proof {
                assert(self@.take(start as int).drop_last() =~= self@.take(start - 1));
            }
            start -= 1;
        }
        start
    }

    /// The last component of the path, if it names a file.
    pub fn file_name(&self) -> (name: Option<Vec<u8>>)
        ensures
            name.deep_view() == file_name(self@),
    {
        assert(self@.take(self@.len() as int) =~= self@);
        let end = self.normal_len(self.bytes.len());
        let start = self.last_start(end);
        let ghost q = normal_end(self@);
        let name = copy_range(&self.bytes, start, end);
        proof {
            assert(name@ =~= q.skip(last_start(q) as int));
            assert(name@.len() == 1 && name@[0] == DOT ==> name@ =~= current_dir());
            assert(name@.len() == 2 && name@[0] == DOT && name@[1] == DOT ==> name@
                =~= upper_dir());
        }
        if name.len() == 0 {
            None
        } else if name.len() == 1 && name[0] == DOT {
            None
        } else if name.len() == 2 && name[0] == DOT && name[1] == DOT {
            None
        } else {
            assert(name.deep_view() =~= name@);
            Some(name)
        }
    }

    /// The path without its last component, if it has one.
    pub fn parent(&self) -> (dir: Option<FsPath>)
        ensures
            dir.deep_view() == parent(self@),
    {
        assert(self@.take(self@.len() as int) =~= self@);
        let end = self.normal_len(self.bytes.len());
        let start = self.last_start(end);
        let ghost q = normal_end(self@);
        if start == end {
            return None;
        }
        let dir_end = self.normal_len(start);
        let bytes = copy_range(&self.bytes, 0, dir_end);
        proof {
            assert(q.take(start as int) =~= self@.take(start as int));
            assert(bytes@ =~= self@.take(dir_end as int));
        }
        Some(FsPath { bytes })
    }

    /// `tail` as seen from this path.
    pub fn join(&self, tail: &[u8]) -> (out: FsPath)
        ensures
            out@ == joined(self@, tail@),
    {
        let mut bytes: Vec<u8> = Vec::new();
        if !(tail.len() > 0 && tail[0] == SLASH) {
            bytes.extend_from_slice(self.bytes.as_slice());
            assert(bytes@ =~= self@);
            if bytes.len() > 0 && bytes[bytes.len() - 1] != SLASH {
                bytes.push(SLASH);
            }
        }
        let ghost before = bytes@;
        bytes.extend_from_slice(tail);
        assert(bytes@ =~= before + tail@);
        assert(bytes@ =~= joined(self@, tail@));
        FsPath { bytes }
    }

    /// The path with `name` in place of its file name, or behind it where it
    /// has none.
    pub fn with_file_name(&self, name: &[u8]) -> (out: FsPath)
        ensures
            out@ == with_file_name(self@, name@),
    {
        if self.file_name().is_some() {
            match self.parent() {
                Some(dir) => dir.join(name),
                None => self.join(name),
            }
        } else {
            self.join(name)
        }
    }

    /// The path as text for a reader. A path that is valid UTF-8 is shown as
    /// what is written there.
    pub fn display(&self) -> (text: String)
        ensures
            text@ == shown(self@),
            vstd::utf8::valid_utf8(self@) ==> text@ == vstd::utf8::decode_utf8(self@),
    {
        utf8_lossy(self.bytes.as_slice())
    }
}

// ----------------------------------------------------------------------------
// Showing a path
// ----------------------------------------------------------------------------

/// What `String::from_utf8_lossy` makes of bytes.
pub uninterp spec fn shown(bytes: Seq<u8>) -> Seq<char>;

/// `String::from_utf8_lossy`. Not proved here: that its result depends on the
/// bytes alone, and that bytes which are valid UTF-8 come out as the text that
/// they encode.
#[verifier::external_body]
fn utf8_lossy(bytes: &[u8]) -> (text: String)
    ensures
        text@ == shown(bytes@),
        vstd::utf8::valid_utf8(bytes@) ==> text@ == vstd::utf8::decode_utf8(bytes@),
{
    String::from_utf8_lossy(bytes).into_owned()
}

// ----------------------------------------------------------------------------
// Laws
// ----------------------------------------------------------------------------

/// A plain name that was joined to a directory is the file name of the result.
pub proof fn law_joined_file_name(base: Seq<u8>, name: Seq<u8>)
    requires
        is_plain_name(name),
    ensures
        file_name(joined(base, name)) == Some(name),
{
    lemma_joined_split(base, name);
}

/// The parent of a directory with a plain name joined to it is that directory,
/// up to what adds no component at its end.
pub proof fn law_joined_parent(base: Seq<u8>, name: Seq<u8>)
    requires
        is_plain_name(name),
    ensures
        parent(joined(base, name)) == Some(normal_end(base)),
{
    lemma_joined_split(base, name);
    let j = joined(base, name);
    let dir = j.take(last_start(j) as int);
    if base.len() > 0 && base.last() != SLASH {
        assert(dir =~= base.push(SLASH));
        assert(dir.drop_last() =~= base);
    } else {
        assert(dir =~= base);
    }
}

/// A path that has a file name has a parent too, and its file name is a plain
/// one.
pub proof fn law_file_name_has_parent(p: Seq<u8>)
    requires
        file_name(p) is Some,
    ensures
        parent(p) is Some,
        is_plain_name(file_name(p)->0),
{
    lemma_last_component_plain(normal_end(p));
}

/// Replacing the file name of a path by a plain name leaves it in its
/// directory, under the new name.
pub proof fn law_with_file_name_is_sibling(p: Seq<u8>, name: Seq<u8>)
    requires
        file_name(p) is Some,
        is_plain_name(name),
    ensures
        file_name(with_file_name(p, name)) == Some(name),
        parent(with_file_name(p, name)) == parent(p),
{
    law_file_name_has_parent(p);
    let dir = parent(p)->0;
    law_joined_file_name(dir, name);
    law_joined_parent(dir, name);
    let q = normal_end(p);
    lemma_normal_end_idempotent(q.take(last_start(q) as int));
}

/// What adds no component at the end of a path is removed all at once.
proof fn lemma_normal_end_idempotent(p: Seq<u8>)
    ensures
        normal_end(normal_end(p)) == normal_end(p),
    decreases p.len(),
{
    if p.len() > 1 && (p.last() == SLASH || (p.last() == DOT && p[p.len() - 2] == SLASH)) {
        lemma_normal_end_idempotent(p.drop_last());
    }
}

proof fn lemma_last_component_plain(q: Seq<u8>)
    ensures
        last_start(q) <= q.len(),
        !q.skip(last_start(q) as int).contains(SLASH),
        last_start(q) > 0 ==> q[last_start(q) - 1] == SLASH,
    decreases q.len(),
{
    if q.len() == 0 || q.last() == SLASH {
        assert(q.skip(q.len() as int) =~= Seq::<u8>::empty());
    } else {
        let r = q.drop_last();
        lemma_last_component_plain(r);
        let tail = q.skip(last_start(q) as int);
        assert(tail =~= r.skip(last_start(r) as int).push(q.last()));
        assert forall|i: int| 0 <= i < tail.len() implies tail[i] != SLASH by {
            if i < tail.len() - 1 {
                assert(tail[i] == r.skip(last_start(r) as int)[i]);
                assert(r.skip(last_start(r) as int).contains(tail[i]));
            }
        }
    }
}

/// Where the last component begins in a prefix that ends in a slash, followed
/// by bytes that hold none.
proof fn lemma_last_start_append(front: Seq<u8>, name: Seq<u8>)
    requires
        front.len() == 0 || front.last() == SLASH,
        !name.contains(SLASH),
    ensures
        last_start(front + name) == front.len(),
    decreases name.len(),
{
    if name.len() == 0 {
        assert(front + name =~= front);
    } else {
        assert(name.contains(name.last()));
        let shorter = name.drop_last();
        assert forall|i: int| 0 <= i < shorter.len() implies shorter[i] != SLASH by {
            assert(name.contains(name[i]));
        }
        lemma_last_start_append(front, shorter);
        assert((front + name).drop_last() =~= front + shorter);
    }
}

proof fn lemma_joined_split(base: Seq<u8>, name: Seq<u8>)
    requires
        is_plain_name(name),
    ensures
        normal_end(joined(base, name)) == joined(base, name),
        last_start(joined(base, name)) + name.len() == joined(base, name).len(),
        joined(base, name).skip(last_start(joined(base, name)) as int) == name,
{
    let j = joined(base, name);
    assert(name.contains(name[0]));
    assert(name.contains(name.last()));
    let front = if base.len() > 0 && base.last() != SLASH {
        base.push(SLASH)
    } else {
        base
    };
    assert(j == front + name);
    lemma_last_start_append(front, name);
    assert(j.skip(front.len() as int) =~= name);
    assert(j.last() == name.last());
    if name.len() == 1 {
        if j.last() == DOT {
            assert(name =~= current_dir());
        }
    } else {
        assert(j[j.len() - 2] == name[name.len() - 2]);
        assert(name.contains(name[name.len() - 2]));
    }
}

/// What is joined to a directory stands behind it, with one slash between the
/// two where the directory does not end in one; what is absolute stands alone.
pub proof fn law_joined_keeps_both(base: Seq<u8>, tail: Seq<u8>)
    ensures
        tail.len() > 0 && tail[0] == 0x2f ==> joined(base, tail) == tail,
        !(tail.len() > 0 && tail[0] == 0x2f) ==> {
            let j = joined(base, tail);
            let slash = if base.len() > 0 && base.last() != 0x2f {
                1int
            } else {
                0
            };
            &&& j.len() == base.len() + slash + tail.len()
            &&& j.take(base.len() as int) == base
            &&& j.skip(base.len() + slash) == tail
            &&& slash == 1 ==> j[base.len() as int] == 0x2f
        },
{
    let j = joined(base, tail);
    if !(tail.len() > 0 && tail[0] == 0x2f) {
        assert(j.take(base.len() as int) =~= base);
        if base.len() > 0 && base.last() != 0x2f {
            assert(j.skip(base.len() as int + 1) =~= tail);
        } else {
            assert(j.skip(base.len() as int) =~= tail);
        }
    }
}

/// A slash at the end of a path changes neither its file name nor its parent.
pub proof fn law_trailing_slash_does_not_matter(p: Seq<u8>)
    requires
        p.len() > 0,
    ensures
        file_name(p.push(0x2f)) == file_name(p),
        parent(p.push(0x2f)) == parent(p),
        file_name(p.push(0x2f).push(0x2e)) == file_name(p),
        parent(p.push(0x2f).push(0x2e)) == parent(p),
{
    let q = p.push(0x2f);
    assert(q.drop_last() =~= p);
    assert(q.push(0x2e).drop_last() =~= q);
    assert(normal_end(q) == normal_end(p));
    assert(normal_end(q.push(0x2e)) == normal_end(q));
}

/// Neither the root, nor the empty path, nor the current directory, nor one that
/// ends in the directory above, names a file; the first two have no parent.
pub proof fn law_no_file_name(base: Seq<u8>)
    ensures
        file_name(Seq::<u8>::empty()) is None,
        parent(Seq::<u8>::empty()) is None,
        file_name(seq![0x2fu8]) is None,
        parent(seq![0x2fu8]) is None,
        file_name(seq![0x2eu8]) is None,
        file_name(joined(base, seq![0x2eu8, 0x2eu8])) is None,
        parent(joined(base, seq![0x2eu8, 0x2eu8])) is Some,
{
    reveal_with_fuel(normal_end, 2);
    reveal_with_fuel(last_start, 2);
    assert(seq![0x2eu8].drop_last() =~= Seq::<u8>::empty());
    assert(seq![0x2eu8].skip(0) =~= current_dir());
    let up = seq![0x2eu8, 0x2eu8];
    let j = joined(base, up);
    let front = if base.len() > 0 && base.last() != SLASH {
        base.push(SLASH)
    } else {
        base
    };
    assert(j =~= front + up);
    assert(j.last() == 0x2e && j[j.len() - 2] == 0x2e);
    assert(normal_end(j) == j);
    lemma_last_start_append(front, up);
    assert(j.skip(front.len() as int) =~= upper_dir());
}

/// A path without a file name keeps all of itself: the name is put behind it.
pub proof fn law_name_is_added_where_there_is_none(p: Seq<u8>, name: Seq<u8>)
    requires
        file_name(p) is None,
    ensures
        with_file_name(p, name) == joined(p, name),
{
}

} // verus!
