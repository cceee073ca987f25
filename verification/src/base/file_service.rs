//! Decisions taken while an uploaded file is streamed to disk: where it is
//! stored, and whether its leading bytes show a type that may be kept.
use vstd::prelude::*;
use crate::base::ids::{fresh_id, uuid_hyphenated, uuid_text};
use crate::base::text::{concat, str_eq};
use infer::MatcherType as M;

verus! {

/// The largest number of leading bytes gathered to recognise a file type.
pub const INFER_MAGIC_BUF_MAX_LEN: usize = 256;

/// A type is looked for once more than this many leading bytes are known.
pub const INFER_MAGIC_BUF_MIN_LEN: usize = 1;

/// The broad kind of a recognised file type.
#[derive(Clone, Copy, Debug, PartialEq, Eq, Structural)]
pub enum FileKind {
    App,
    Archive,
    Audio,
    Book,
    Doc,
    Font,
    Image,
    Text,
    Video,
    Custom,
}

/// The name under which a kind is written in messages.
pub open spec fn kind_name(k: FileKind) -> Seq<char> {
    match k {
        FileKind::App => "App"@,
        FileKind::Archive => "Archive"@,
        FileKind::Audio => "Audio"@,
        FileKind::Book => "Book"@,
        FileKind::Doc => "Doc"@,
        FileKind::Font => "Font"@,
        FileKind::Image => "Image"@,
        FileKind::Text => "Text"@,
        FileKind::Video => "Video"@,
        FileKind::Custom => "Custom"@,
    }
}

impl FileKind {
    pub fn name(&self) -> (r: &'static str)
        ensures
            r@ == kind_name(*self),
    {
        match self {
            FileKind::App => "App",
            FileKind::Archive => "Archive",
            FileKind::Audio => "Audio",
            FileKind::Book => "Book",
            FileKind::Doc => "Doc",
            FileKind::Font => "Font",
            FileKind::Image => "Image",
            FileKind::Text => "Text",
            FileKind::Video => "Video",
            FileKind::Custom => "Custom",
        }
    }
}

/// What `infer::get` recognises in a buffer: the kind and the usual
/// extension of the first known type whose signature the buffer carries.
pub uninterp spec fn inferred_type(buf: Seq<u8>) -> Option<(FileKind, Seq<char>)>;

/// Calls `infer::get(buf)` and reads its kind and extension. Trusted: the
/// result is `inferred_type` of the bytes; `infer::get` looks the buffer up
/// in a fixed table, so the same bytes give the same answer.
#[verifier::external_body]
fn infer_file_type(buf: &[u8]) -> (r: Option<(FileKind, &'static str)>)
    ensures
        r matches Some((k, e)) ==> inferred_type(buf@) == Some((k, e@)),
        r is None ==> inferred_type(buf@) is None,
{
    let t = match infer::get(buf) { Some(t) => t, None => return None };
    let k = match t.matcher_type() {
        M::App => FileKind::App, M::Archive => FileKind::Archive, M::Audio => FileKind::Audio,
        M::Book => FileKind::Book, M::Doc => FileKind::Doc, M::Font => FileKind::Font,
        M::Image => FileKind::Image, M::Text => FileKind::Text, M::Video => FileKind::Video,
        M::Custom => FileKind::Custom,
    };
    Some((k, t.extension()))
}

/// The type recognised in `data`, with the kind and the extension.
pub fn recognise(data: &[u8]) -> (r: Option<(FileKind, &'static str)>)
    ensures
        r matches Some((k, e)) ==> inferred_type(data@) == Some((k, e@)),
        r is None ==> inferred_type(data@) is None,
{
    infer_file_type(data)
}

/// The name given to an uploaded field that carries none.
pub fn upload_file_name(name: Option<&str>) -> (r: &str)
    ensures
        name matches Some(n) ==> r@ == n@,
        name is None ==> r@ == "unknown"@,
{
    match name {
        Some(n) => n,
        None => "unknown",
    }
}

/// Where an upload is stored: `<dir>/<id>.<extension>`.
pub open spec fn storage_path_of(dir: Seq<char>, id: Seq<char>, extension: Seq<char>) -> Seq<char> {
    dir + "/"@ + id + "."@ + extension
}

pub fn storage_path(dir: &str, id: &str, extension: &str) -> (r: String)
    ensures
        r@ == storage_path_of(dir@, id@, extension@),
{
    let p = concat(dir, "/");
    let p = concat(p.as_str(), id);
    let p = concat(p.as_str(), ".");
    concat(p.as_str(), extension)
}

/// Where a new upload with `extension` is stored: under `dir`, named by a
/// fresh time-ordered identifier in its hyphenated form.
pub fn fresh_storage_path(dir: &str, extension: &str) -> (r: String)
    ensures
        exists|id: u128| r@ == storage_path_of(dir@, #[trigger] uuid_hyphenated(id), extension@),
{
    let id = fresh_id();
    let text = uuid_text(id);
    storage_path(dir, text.as_str(), extension)
}

/// `s` joined with `sep` between neighbours.
pub open spec fn join(s: Seq<Seq<char>>, sep: Seq<char>) -> Seq<char>
    decreases s.len(),
{
    if s.len() == 0 {
        seq![]
    } else if s.len() == 1 {
        s[0]
    } else {
        join(s.drop_last(), sep) + sep + s.last()
    }
}

/// A list of kinds as it is written in messages: `[Image, Video]`.
pub open spec fn kinds_text(kinds: Seq<FileKind>) -> Seq<char> {
    "["@ + join(kinds.map_values(|k: FileKind| kind_name(k)), ", "@) + "]"@
}

pub fn kinds_list(kinds: &Vec<FileKind>) -> (r: String)
    ensures
        r@ == kinds_text(kinds@),
{
    let ghost names = kinds@.map_values(|k: FileKind| kind_name(k));
    let mut body = String::new();
    let mut i: usize = 0;
    while i < kinds.len()
        invariant
            i <= kinds@.len(),
            names == kinds@.map_values(|k: FileKind| kind_name(k)),
            body@ == join(names.take(i as int), ", "@),
        decreases kinds@.len() - i,
    {
        if i == 0 {
            body.append(kinds[i].name());
        } else {
            body.append(", ");
            body.append(kinds[i].name());
        }
        assert(names.take(i + 1).drop_last() =~= names.take(i as int));
        i = i + 1;
    }
    assert(names.take(kinds@.len() as int) =~= names);
    let r = concat("[", body.as_str());
    concat(r.as_str(), "]")
}

/// Whether `kinds` holds `k`.
pub fn holds_kind(kinds: &Vec<FileKind>, k: FileKind) -> (r: bool)
    ensures
        r == kinds@.contains(k),
{
    let mut i: usize = 0;
    while i < kinds.len()
        invariant
            i <= kinds@.len(),
            forall|j: int| 0 <= j < i ==> kinds@[j] != k,
        decreases kinds@.len() - i,
    {
        if kinds[i] == k {
            return true;
        }
        i = i + 1;
    }
    false
}

/// The leading bytes known after a chunk arrives: while no type has been
/// recognised, the chunk's first bytes are added until the limit is reached.
pub open spec fn gathered(magic: Seq<u8>, checked: bool, chunk: Seq<u8>) -> Seq<u8> {
    if !checked && magic.len() < INFER_MAGIC_BUF_MAX_LEN {
        let room = INFER_MAGIC_BUF_MAX_LEN - magic.len();
        let take = if chunk.len() < room { chunk.len() as int } else { room as int };
        magic + chunk.subrange(0, take)
    } else {
        magic
    }
}

/// What to do with a chunk of an upload.
#[derive(Debug)]
pub enum ChunkVerdict {
    /// Write the chunk and go on.
    Write,
    /// The recognised kind is not among those allowed: refuse the upload.
    Disallowed(FileKind),
    /// The recognised type has another extension than the file name: remove
    /// the stored file and refuse the upload. Holds the recognised extension.
    Mismatch(String),
    /// No type was recognised in the largest leading part: refuse the upload.
    Unrecognized,
}

/// The verdict on a chunk, given the leading bytes `m` known after it, whether
/// a type had been recognised before it, and the answer about the type.
pub open spec fn verdict_holds(
    r: ChunkVerdict,
    checked_after: bool,
    m: Seq<u8>,
    checked_before: bool,
    allowed: Seq<FileKind>,
    extension: Seq<char>,
) -> bool {
    if !checked_before && m.len() > INFER_MAGIC_BUF_MIN_LEN {
        match inferred_type(m) {
            Some((k, e)) => if !allowed.contains(k) {
                r == ChunkVerdict::Disallowed(k) && !checked_after
            } else if e != extension {
                r matches ChunkVerdict::Mismatch(a) && a@ == e && !checked_after
            } else {
                r is Write && checked_after
            },
            None => !checked_after && if m.len() >= INFER_MAGIC_BUF_MAX_LEN {
                r is Unrecognized
            } else {
                r is Write
            },
        }
    } else {
        r is Write && checked_after == checked_before
    }
}

/// Follows the leading bytes of one uploaded file until its type is known.
pub struct TypeSniffer {
    magic: Vec<u8>,
    type_checked: bool,
}

impl TypeSniffer {
    /// The leading bytes gathered so far.
    pub closed spec fn magic(&self) -> Seq<u8> {
        self.magic@
    }

    /// Whether a type has been recognised and accepted.
    pub closed spec fn checked(&self) -> bool {
        self.type_checked
    }

    /// No more than the limit is ever gathered.
    pub open spec fn wf(&self) -> bool {
        self.magic().len() <= INFER_MAGIC_BUF_MAX_LEN
    }

    pub fn new() -> (r: TypeSniffer)
        ensures
            r.wf(),
            r.magic() == Seq::<u8>::empty(),
            !r.checked(),
    {
        TypeSniffer { magic: Vec::new(), type_checked: false }
    }

    /// Takes the next chunk of the file whose name has `extension`, where
    /// only the kinds in `allowed` may be stored.
    pub fn on_chunk(&mut self, chunk: &[u8], allowed: &Vec<FileKind>, extension: &str) -> (r:
        ChunkVerdict)
        requires
            old(self).wf(),
        ensures
            final(self).wf(),
            final(self).magic() == gathered(old(self).magic(), old(self).checked(), chunk@),
            verdict_holds(
                r,
                final(self).checked(),
                final(self).magic(),
                old(self).checked(),
                allowed@,
                extension@,
            ),
    {
        let ghost m0 = self.magic@;
        if !self.type_checked && self.magic.len() < INFER_MAGIC_BUF_MAX_LEN {
            let room = INFER_MAGIC_BUF_MAX_LEN - self.magic.len();
            let take = if chunk.len() < room { chunk.len() } else { room };
            let mut i: usize = 0;
            while i < take
                invariant
                    i <= take,
                    take <= chunk@.len(),
                    !self.type_checked,
                    self.type_checked == old(self).type_checked,
                    self.magic@ == m0 + chunk@.subrange(0, i as int),
                decreases take - i,
            {
                self.magic.push(chunk[i]);
                i = i + 1;
            }
        }
        if !self.type_checked && self.magic.len() > INFER_MAGIC_BUF_MIN_LEN {
            let found = recognise(self.magic.as_slice());
            match found {
                Some((k, e)) => {
                    if !holds_kind(allowed, k) {
                        return ChunkVerdict::Disallowed(k);
                    }
                    if !str_eq(e, extension) {
                        return ChunkVerdict::Mismatch(e.to_owned());
                    }
                    self.type_checked = true;
                },
                None => {
                    if self.magic.len() >= INFER_MAGIC_BUF_MAX_LEN {
                        return ChunkVerdict::Unrecognized;
                    }
                },
            }
        }
        ChunkVerdict::Write
    }
}

/// Once a type is accepted, every later chunk is written and the leading
/// bytes stay as they are.
pub proof fn law_accepted_type_is_final(
    magic: Seq<u8>,
    chunk: Seq<u8>,
    r: ChunkVerdict,
    checked_after: bool,
    allowed: Seq<FileKind>,
    extension: Seq<char>,
)
    requires
        verdict_holds(r, checked_after, gathered(magic, true, chunk), true, allowed, extension),
    ensures
        gathered(magic, true, chunk) == magic,
        r is Write,
        checked_after,
{
}

/// The leading bytes never grow beyond the limit, and they are always the
/// bytes gathered before followed by the first bytes of the chunk.
pub proof fn law_gathered_is_bounded_prefix(magic: Seq<u8>, checked: bool, chunk: Seq<u8>)
    requires
        magic.len() <= INFER_MAGIC_BUF_MAX_LEN,
    ensures
        gathered(magic, checked, chunk).len() <= INFER_MAGIC_BUF_MAX_LEN,
        gathered(magic, checked, chunk).subrange(0, magic.len() as int) == magic,
        gathered(magic, checked, chunk) == magic + chunk.subrange(
            0,
            gathered(magic, checked, chunk).len() - magic.len(),
        ),
{
    let g = gathered(magic, checked, chunk);
    assert(g.subrange(0, magic.len() as int) =~= magic);
    assert(g =~= magic + chunk.subrange(0, g.len() - magic.len()));
}

/// An upload is refused as unrecognised only once the whole leading part has
/// been looked at.
pub proof fn law_unrecognized_needs_full_buffer(
    m: Seq<u8>,
    r: ChunkVerdict,
    checked_after: bool,
    checked_before: bool,
    allowed: Seq<FileKind>,
    extension: Seq<char>,
)
    requires
        verdict_holds(r, checked_after, m, checked_before, allowed, extension),
        r is Unrecognized,
    ensures
        m.len() >= 256,
        inferred_type(m) is None,
{
}

/// A recognised kind found at any position of the allowed list is never
/// refused as disallowed: with the extension of the file name the upload is
/// accepted, with another it is refused as a mismatch naming the recognised
/// extension.
pub proof fn law_allowed_kind_at_any_position(
    r: ChunkVerdict,
    checked_after: bool,
    m: Seq<u8>,
    allowed: Seq<FileKind>,
    extension: Seq<char>,
    k: FileKind,
    e: Seq<char>,
    i: int,
)
    requires
        verdict_holds(r, checked_after, m, false, allowed, extension),
        m.len() > 1,
        inferred_type(m) == Some((k, e)),
        0 <= i < allowed.len(),
        allowed[i] == k,
    ensures
        !(r is Disallowed),
        e == extension ==> r is Write && checked_after,
        e != extension ==> (r matches ChunkVerdict::Mismatch(a) && a@ == e) && !checked_after,
{
    assert(allowed.contains(k));
}

/// A recognised kind that stands at no position of the allowed list is
/// refused as disallowed, naming that kind, whatever the extension.
pub proof fn law_kind_outside_allowed_is_refused(
    r: ChunkVerdict,
    checked_after: bool,
    m: Seq<u8>,
    allowed: Seq<FileKind>,
    extension: Seq<char>,
    k: FileKind,
    e: Seq<char>,
)
    requires
        verdict_holds(r, checked_after, m, false, allowed, extension),
        m.len() > 1,
        inferred_type(m) == Some((k, e)),
        forall|i: int| 0 <= i < allowed.len() ==> allowed[i] != k,
    ensures
        r == ChunkVerdict::Disallowed(k),
        !checked_after,
{
}

/// Until a type is found, a chunk is written and the type is looked for
/// again later: while only one byte is known, and while the bytes known are
/// fewer than the limit and show no type. Nothing is refused then.
pub proof fn law_undecided_chunks_are_written(
    r: ChunkVerdict,
    checked_after: bool,
    m: Seq<u8>,
    allowed: Seq<FileKind>,
    extension: Seq<char>,
)
    requires
        verdict_holds(r, checked_after, m, false, allowed, extension),
        m.len() <= 1 || (m.len() < 256 && inferred_type(m) is None),
    ensures
        r is Write,
        !checked_after,
{
}

/// While no type has been accepted, a chunk adds its first bytes to those
/// known until 256 are known; after a type is accepted nothing is added.
pub proof fn law_gathered_length(magic: Seq<u8>, checked: bool, chunk: Seq<u8>)
    requires
        magic.len() <= INFER_MAGIC_BUF_MAX_LEN,
    ensures
        !checked && magic.len() + chunk.len() <= 256 ==> gathered(magic, checked, chunk) == magic
            + chunk,
        !checked && magic.len() + chunk.len() > 256 ==> gathered(magic, checked, chunk).len()
            == 256,
        checked ==> gathered(magic, checked, chunk) == magic,
{
    if !checked && magic.len() + chunk.len() <= 256 && magic.len() < 256 {
        assert(chunk.subrange(0, chunk.len() as int) =~= chunk);
    }
    if !checked && magic.len() == 256 {
        assert(chunk.len() == 0 ==> magic + chunk =~= magic);
    }
}

/// Each kind is written under its own name, and a list of kinds is written
/// as the names of its kinds, in order, between brackets and separated by a
/// comma and a space.
pub proof fn law_kinds_are_written_by_name(kinds: Seq<FileKind>, k: FileKind)
    ensures
        kind_name(FileKind::App) == "App"@,
        kind_name(FileKind::Archive) == "Archive"@,
        kind_name(FileKind::Audio) == "Audio"@,
        kind_name(FileKind::Book) == "Book"@,
        kind_name(FileKind::Doc) == "Doc"@,
        kind_name(FileKind::Font) == "Font"@,
        kind_name(FileKind::Image) == "Image"@,
        kind_name(FileKind::Text) == "Text"@,
        kind_name(FileKind::Video) == "Video"@,
        kind_name(FileKind::Custom) == "Custom"@,
        kinds_text(seq![]) == "[]"@,
        kinds_text(seq![k]) == "["@ + kind_name(k) + "]"@,
        kinds.len() > 0 ==> kinds_text(kinds.push(k)) == kinds_text(kinds).drop_last() + ", "@
            + kind_name(k) + "]"@,
{
    reveal_strlit("[]");
    reveal_strlit("[");
    reveal_strlit("]");
    let f = |x: FileKind| kind_name(x);
    assert(seq![].map_values(f) =~= Seq::<Seq<char>>::empty());
    assert("["@ + Seq::<char>::empty() + "]"@ =~= "[]"@);
    assert(seq![k].map_values(f) =~= seq![kind_name(k)]);
    if kinds.len() > 0 {
        let n = kinds.map_values(f);
        let np = kinds.push(k).map_values(f);
        assert(np =~= n.push(kind_name(k)));
        assert(np.drop_last() =~= n);
        let t = "["@ + join(n, ", "@) + "]"@;
        assert(t.drop_last() =~= "["@ + join(n, ", "@));
        assert(kinds_text(kinds.push(k)) =~= t.drop_last() + ", "@ + kind_name(k) + "]"@);
    }
}

/// The messages of a refused upload: a disallowed kind names the allowed
/// kinds and then the recognised one, a mismatch names the extension of the
/// file name and then the recognised one.
pub proof fn law_refusal_messages(allowed: Seq<FileKind>, actual: FileKind, expected: Seq<char>, found: Seq<char>)
    ensures
        disallowed_text(allowed, actual) == "disallowed file type, expected one of "@ + kinds_text(
            allowed,
        ) + ", actual "@ + kind_name(actual),
        mismatch_text(expected, found) == "file type mismatch, expected "@ + expected
            + ", actual "@ + found,
{
}

/// The message for a refused kind.
pub open spec fn disallowed_text(allowed: Seq<FileKind>, actual: FileKind) -> Seq<char> {
    "disallowed file type, expected one of "@ + kinds_text(allowed) + ", actual "@ + kind_name(
        actual,
    )
}

pub fn disallowed_message(allowed: &Vec<FileKind>, actual: FileKind) -> (r: String)
    ensures
        r@ == disallowed_text(allowed@, actual),
{
    let m = concat("disallowed file type, expected one of ", kinds_list(allowed).as_str());
    let m = concat(m.as_str(), ", actual ");
    concat(m.as_str(), actual.name())
}

/// The message for a type that does not match the file name.
pub open spec fn mismatch_text(expected: Seq<char>, actual: Seq<char>) -> Seq<char> {
    "file type mismatch, expected "@ + expected + ", actual "@ + actual
}

pub fn mismatch_message(expected: &str, actual: &str) -> (r: String)
    ensures
        r@ == mismatch_text(expected@, actual@),
{
    let m = concat("file type mismatch, expected ", expected);
    let m = concat(m.as_str(), ", actual ");
    concat(m.as_str(), actual)
}

/// The message when the stored file of a refused upload cannot be removed.
pub fn remove_failure_message(reason: &str) -> (r: String)
    ensures
        r@ == "failed to remove file after type mismatch: "@ + reason@,
{
    concat("failed to remove file after type mismatch: ", reason)
}

/// The message when no type is recognised.
pub fn unrecognized_message() -> (r: &'static str)
    ensures
        r@ == "cant't infer file type"@,
{
    "cant't infer file type"
}

} // verus!
