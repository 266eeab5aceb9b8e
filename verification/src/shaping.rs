//! The trusted boundary to cosmic-text, the shaping engine behind the
//! render pipeline: declarations of its stateful types and contracts
//! for the calls the pipeline makes.

use vstd::prelude::*;

verus! {

#[verifier::external_type_specification]
#[verifier::external_body]
pub struct ExFontSystem(cosmic_text::FontSystem);

#[verifier::external_type_specification]
#[verifier::external_body]
pub struct ExBuffer(cosmic_text::Buffer);

#[verifier::external_type_specification]
#[verifier::external_body]
pub struct ExFontId(cosmic_text::fontdb::ID);

/// The text of each line a shaping buffer holds, top to bottom: the
/// source its glyph layout is shaped from.
pub uninterp spec fn buffer_lines(b: cosmic_text::Buffer) -> Seq<Seq<char>>;

/// How the shaper splits a text into lines: one line per paragraph,
/// with the terminating separator characters removed.
pub uninterp spec fn line_split(s: Seq<char>) -> Seq<Seq<char>>;

/// The ids of the faces whose metadata matches the shaping attributes
/// the library always uses: normal style, weight and stretch, or an
/// emoji face. The requested family plays no part in matching.
pub uninterp spec fn matching_faces(fs: cosmic_text::FontSystem) -> Seq<
    cosmic_text::fontdb::ID,
>;

/// Whether the face's font data is at hand in this font system:
/// loaded, parsed and cached. What a load would yield depends on the
/// face's source outside the value, so only the data already brought
/// in is spoken of.
pub uninterp spec fn face_ready(fs: cosmic_text::FontSystem, id: cosmic_text::fontdb::ID) -> bool;

/// The shaper has a face at hand to fall back on: one whose metadata
/// matches the fixed attributes and whose data is loaded. Shaping
/// aborts on any non-empty run without a usable face, and its
/// last-resort fallback accepts any matching face at hand, whatever
/// the text says.
pub open spec fn can_shape(fs: cosmic_text::FontSystem) -> bool {
    exists|i: int| 0 <= i < matching_faces(fs).len() && face_ready(fs, matching_faces(fs)[i])
}

/// The fonts only grew between the two states: the match list is as
/// before, and every face whose data was at hand still has it (loads
/// fill caches; nothing is evicted).
pub open spec fn fonts_preserved(
    fs1: cosmic_text::FontSystem,
    fs2: cosmic_text::FontSystem,
) -> bool {
    matching_faces(fs2) == matching_faces(fs1) && forall|id: cosmic_text::fontdb::ID|
        face_ready(fs1, id) ==> #[trigger] face_ready(fs2, id)
}

/// A state that could shape still can once the fonts only grew.
pub proof fn lemma_fonts_preserved_can_shape(
    fs1: cosmic_text::FontSystem,
    fs2: cosmic_text::FontSystem,
)
    requires
        fonts_preserved(fs1, fs2),
        can_shape(fs1),
    ensures
        can_shape(fs2),
{
    let i = choose|i: int|
        0 <= i < matching_faces(fs1).len() && face_ready(fs1, matching_faces(fs1)[i]);
    assert(face_ready(fs2, matching_faces(fs2)[i]));
}

/// A paragraph separator (bidi class B): the characters at which the
/// shaper breaks a text into lines.
pub open spec fn is_line_break(c: char) -> bool {
    c == '\n' || c == '\r' || c == '\u{1c}' || c == '\u{1d}' || c == '\u{1e}' || c == '\u{85}'
        || c == '\u{2029}'
}

/// Whether a text contains any paragraph separator.
pub open spec fn has_line_break(s: Seq<char>) -> bool {
    exists|i: int| 0 <= i < s.len() && is_line_break(s[i])
}

/// Relies on cosmic-text's `Buffer::set_text`: replaces the buffer's
/// lines with the paragraphs of `text` (sans-serif attributes,
/// advanced shaping) and shapes them; a text without a separator
/// becomes exactly one line holding that text. Shaping needs a usable
/// face at hand, so a system without one is ruled out; it may load
/// further faces but evicts none, and the match list never changes.
#[verifier::external_body]
pub(crate) fn buffer_set_text(
    b: &mut cosmic_text::Buffer,
    fs: &mut cosmic_text::FontSystem,
    text: &str,
)
    requires
        can_shape(*old(fs)),
    ensures
        buffer_lines(*final(b)) == line_split(text@),
        !has_line_break(text@) ==> buffer_lines(*final(b)) =~= seq![text@],
        fonts_preserved(*old(fs), *final(fs)),
{
    let attrs = cosmic_text::Attrs::new().family(cosmic_text::Family::SansSerif);
    b.set_text(fs, text, attrs, cosmic_text::Shaping::Advanced);
}

/// Relies on cosmic-text's `Buffer::shape_until_scroll`: lays the
/// visible lines out as positioned glyphs. The lines' text is not
/// changed; as with setting text, a usable face is needed, further
/// faces may be loaded and none is evicted.
#[verifier::external_body]
pub(crate) fn buffer_shape(b: &mut cosmic_text::Buffer, fs: &mut cosmic_text::FontSystem)
    requires
        can_shape(*old(fs)),
    ensures
        buffer_lines(*final(b)) == buffer_lines(*old(b)),
        fonts_preserved(*old(fs), *final(fs)),
{
    b.shape_until_scroll(fs);
}

/// Relies on cosmic-text's `FontSystem::get_font_matches`: the ids of
/// the faces whose metadata matches the given attributes. It only
/// fills a cache of that list: no face's data comes or goes.
#[verifier::external_body]
pub(crate) fn matching_face_ids(fs: &mut cosmic_text::FontSystem) -> (ids: Vec<
    cosmic_text::fontdb::ID,
>)
    ensures
        ids@ == matching_faces(*old(fs)),
        fonts_preserved(*old(fs), *final(fs)),
{
    let attrs = cosmic_text::Attrs::new().family(cosmic_text::Family::SansSerif);
    fs.get_font_matches(attrs).as_ref().clone()
}

/// Relies on cosmic-text's `FontSystem::get_font`: brings the face's
/// font data in from its source if it is not at hand already, and
/// returns whether it now is. A face already at hand stays so; no
/// other face's entry is touched, and the match list never changes.
#[verifier::external_body]
pub(crate) fn face_loads(fs: &mut cosmic_text::FontSystem, id: cosmic_text::fontdb::ID) -> (b:
    bool)
    ensures
        b == face_ready(*final(fs), id),
        face_ready(*old(fs), id) ==> b,
        matching_faces(*final(fs)) == matching_faces(*old(fs)),
        forall|i: cosmic_text::fontdb::ID|
            i != id ==> #[trigger] face_ready(*final(fs), i) == face_ready(*old(fs), i),
{
    match fs.get_font(id) {
        Some(_) => true,
        None => false,
    }
}

/// Whether the font system now has a usable face: walks the faces
/// whose metadata matches the fixed shaping attributes, loading each
/// in turn until one's data is at hand. A system that could already
/// shape always succeeds.
pub fn has_usable_face(fs: &mut cosmic_text::FontSystem) -> (b: bool)
    ensures
        b == can_shape(*final(fs)),
        can_shape(*old(fs)) ==> b,
{
    let ids = matching_face_ids(fs);
    proof {
        if can_shape(*old(fs)) {
            lemma_fonts_preserved_can_shape(*old(fs), *fs);
        }
    }
    let n: usize = ids.len();
    for j in 0..n
        invariant
            n == ids@.len(),
            ids@ == matching_faces(*fs),
            can_shape(*old(fs)) ==> can_shape(*fs),
            forall|k: int| 0 <= k < j ==> !face_ready(*fs, ids@[k]),
    {
        let ghost fs_before = *fs;
        let id = ids[j];
        let loads = face_loads(fs, id);
        proof {
            if can_shape(fs_before) {
                let i = choose|i: int|
                    0 <= i < matching_faces(fs_before).len() && face_ready(
                        fs_before,
                        matching_faces(fs_before)[i],
                    );
                assert(face_ready(*fs, matching_faces(*fs)[i]));
            }
        }
        if loads {
            proof {
                assert(face_ready(*fs, matching_faces(*fs)[j as int]));
            }
            return true;
        }
    }
    proof {
        assert(!can_shape(*fs)) by {
            if can_shape(*fs) {
                let i = choose|i: int|
                    0 <= i < matching_faces(*fs).len() && face_ready(*fs, matching_faces(*fs)[i]);
                assert(!face_ready(*fs, ids@[i]));
            }
        }
    }
    false
}

} // verus!
