//! The render pipeline's verified state: the configured surface
//! dimensions, the editable text, and the shaping buffer whose layout
//! must never lag behind the text. The GPU device, surface and glyph
//! atlas around this state belong to the caller, who reads the frame
//! dimensions and the shaped buffer from here for every draw pass.

use crate::input::{map_key, KeyInput, NamedKeyInput};
use crate::shaping::{
    buffer_lines, buffer_set_text, buffer_shape, can_shape, has_line_break, has_usable_face,
    lemma_fonts_preserved_can_shape, line_split,
};
use crate::text::{apply_edit, EditCommand, EditableText};
use vstd::prelude::*;

verus! {

/// The render target's configured dimensions, in physical pixels.
/// They always match the last resize, and a frame is never prepared
/// against any other pair.
#[derive(Clone, Copy, PartialEq, Eq, Structural, Debug)]
pub struct SurfaceConfig {
    /// Width in physical pixels.
    pub width: u32,
    /// Height in physical pixels.
    pub height: u32,
}

/// The render pipeline's state: surface configuration, the edited
/// line, and the shaping buffer that carries its glyph layout.
pub struct Renderer {
    config: SurfaceConfig,
    text: EditableText,
    buffer: cosmic_text::Buffer,
    font_system: cosmic_text::FontSystem,
}

impl Renderer {
    /// The edited line's content.
    pub closed spec fn content(self) -> Seq<char> {
        self.text@
    }

    /// The text of each line the shaping buffer holds.
    pub closed spec fn layout(self) -> Seq<Seq<char>> {
        buffer_lines(self.buffer)
    }

    /// The configured surface dimensions.
    pub closed spec fn surface_config(self) -> SurfaceConfig {
        self.config
    }

    /// The font system has a usable face at hand: one whose metadata
    /// matches the fixed shaping attributes and whose data is loaded,
    /// for the shaper to fall back on.
    pub closed spec fn wf(self) -> bool {
        can_shape(self.font_system)
    }

    /// The layout is shaped from exactly the current content: no lag
    /// between the text model and what is drawn.
    pub open spec fn layout_synced(self) -> bool {
        self.layout() == line_split(self.content())
    }

    /// The state after a resize to the given dimensions: only the
    /// surface configuration changes.
    pub closed spec fn resized(self, width: u32, height: u32) -> Renderer {
        Renderer { config: SurfaceConfig { width, height }, ..self }
    }

    /// Builds the pipeline state at the given physical dimensions,
    /// with an empty line shaped into the given buffer as one empty
    /// layout line. Returns nothing when no matching face's data
    /// could be brought in, since shaping visible text would then
    /// abort; a font system that can already shape is always
    /// accepted.
    pub fn new(
        width: u32,
        height: u32,
        mut font_system: cosmic_text::FontSystem,
        buffer: cosmic_text::Buffer,
    ) -> (r: Option<Renderer>)
        ensures
            can_shape(font_system) ==> r is Some,
            r matches Some(p) ==> p.wf() && p.surface_config() == (SurfaceConfig { width, height })
                && p.content() == Seq::<char>::empty() && p.layout_synced() && p.layout() =~= seq![
                Seq::<char>::empty(),
            ],
    {
        if !has_usable_face(&mut font_system) {
            return None;
        }
        let mut p = Renderer {
            config: SurfaceConfig { width, height },
            text: EditableText::new(),
            buffer,
            font_system,
        };
        p.refresh_buffer();
        Some(p)
    }

    /// Re-shapes the layout from the current content. Once it
    /// returns, the layout reflects the text exactly.
    pub fn refresh_buffer(&mut self)
        requires
            old(self).wf(),
        ensures
            final(self).wf(),
            final(self).content() == old(self).content(),
            final(self).surface_config() == old(self).surface_config(),
            final(self).layout_synced(),
            !has_line_break(final(self).content()) ==> final(self).layout() =~= seq![
                final(self).content(),
            ],
    {
        let ghost fs0 = self.font_system;
        buffer_set_text(&mut self.buffer, &mut self.font_system, self.text.as_str());
        proof {
            lemma_fonts_preserved_can_shape(fs0, self.font_system);
        }
        let ghost fs1 = self.font_system;
        buffer_shape(&mut self.buffer, &mut self.font_system);
        proof {
            lemma_fonts_preserved_can_shape(fs1, self.font_system);
        }
    }

    /// Appends `text` to the line and refreshes the layout.
    pub fn push_str(&mut self, text: &str)
        requires
            old(self).wf(),
        ensures
            final(self).wf(),
            final(self).content() == old(self).content() + text@,
            final(self).surface_config() == old(self).surface_config(),
            final(self).layout_synced(),
            !has_line_break(final(self).content()) ==> final(self).layout() =~= seq![
                final(self).content(),
            ],
    {
        self.text.push_str(text);
        self.refresh_buffer();
    }

    /// Removes the last character, if any, and refreshes the layout.
    /// On an empty line the content stays empty.
    pub fn pop_char(&mut self)
        requires
            old(self).wf(),
        ensures
            final(self).wf(),
            old(self).content().len() == 0 ==> final(self).content() == old(self).content(),
            old(self).content().len() > 0 ==> final(self).content() == old(self).content().drop_last(),
            final(self).surface_config() == old(self).surface_config(),
            final(self).layout_synced(),
            !has_line_break(final(self).content()) ==> final(self).layout() =~= seq![
                final(self).content(),
            ],
    {
        self.text.pop_char();
        self.refresh_buffer();
    }

    /// Clears the line and refreshes the layout.
    pub fn clear(&mut self)
        requires
            old(self).wf(),
        ensures
            final(self).wf(),
            final(self).content() == Seq::<char>::empty(),
            final(self).surface_config() == old(self).surface_config(),
            final(self).layout_synced(),
            !has_line_break(final(self).content()) ==> final(self).layout() =~= seq![
                final(self).content(),
            ],
    {
        self.text.clear();
        self.refresh_buffer();
    }

    /// Applies one mapped command and refreshes the layout: the
    /// content becomes the reference model's result.
    pub fn apply_command(&mut self, cmd: &EditCommand)
        requires
            old(self).wf(),
        ensures
            final(self).wf(),
            final(self).content() == apply_edit(old(self).content(), *cmd),
            final(self).surface_config() == old(self).surface_config(),
            final(self).layout_synced(),
            !has_line_break(final(self).content()) ==> final(self).layout() =~= seq![
                final(self).content(),
            ],
    {
        self.text.apply(cmd);
        self.refresh_buffer();
    }

    /// Handles one keyboard event: applies the mutation the input
    /// mapper commands, refreshes the layout when it does, and says
    /// whether a redraw must follow. A release or an unidentified key
    /// changes nothing.
    pub fn handle_key(&mut self, key: KeyInput, pressed: bool) -> (redraw: bool)
        requires
            old(self).wf(),
        ensures
            final(self).wf(),
            final(self).surface_config() == old(self).surface_config(),
            !pressed ==> !redraw && *final(self) == *old(self),
            pressed ==> (key matches KeyInput::Character(t) ==> redraw && final(self).content()
                == old(self).content() + t@ && final(self).layout_synced()),
            pressed ==> (key matches KeyInput::Named(NamedKeyInput::Backspace)
                ==> redraw && final(self).layout_synced() && (old(self).content().len() == 0
                ==> final(self).content() == old(self).content()) && (old(self).content().len() > 0
                ==> final(self).content() == old(self).content().drop_last())),
            pressed ==> (key matches KeyInput::Named(NamedKeyInput::Escape)
                ==> redraw && final(self).content() == Seq::<char>::empty() && final(self).layout_synced()),
            pressed ==> (key matches KeyInput::Named(
                NamedKeyInput::Other { text: Some(t) },
            ) ==> redraw && final(self).content() == old(self).content() + t@ && final(self).layout_synced()),
            pressed ==> (key matches KeyInput::Named(
                NamedKeyInput::Other { text: None },
            ) ==> redraw && final(self).content() == old(self).content() && final(self).layout_synced()),
            pressed && key is Unidentified ==> !redraw && *final(self) == *old(self),
    {
        let ghost pre = *self;
        let m = map_key(key, pressed);
        match m.command {
            Some(cmd) => {
                self.apply_command(&cmd);
                proof {
                    assert(pre.content() + Seq::<char>::empty() =~= pre.content());
                }
            },
            None => {},
        }
        m.redraw
    }

    /// Updates the surface configuration to the new physical
    /// dimensions; nothing else changes. The caller must reconfigure
    /// the surface before the next frame and request a redraw.
    pub fn resize(&mut self, width: u32, height: u32)
        ensures
            *final(self) == old(self).resized(width, height),
            final(self).surface_config() == (SurfaceConfig { width, height }),
            final(self).content() == old(self).content(),
            final(self).layout() == old(self).layout(),
            old(self).wf() ==> final(self).wf(),
            old(self).layout_synced() ==> final(self).layout_synced(),
    {
        self.config.width = width;
        self.config.height = height;
    }

    /// The dimensions the next frame is prepared, clipped and
    /// presented at: exactly the configured ones, never a stale pair.
    pub fn redraw(&self) -> (r: SurfaceConfig)
        ensures
            r == self.surface_config(),
    {
        self.config
    }

    /// Nothing to release: the window and the stream close on their
    /// own paths.
    pub fn close(&self) {
    }

    /// The edited line's current text.
    pub fn text(&self) -> (s: String)
        ensures
            s@ == self.content(),
    {
        self.text.text()
    }

    /// The shaping buffer, for the draw pass to read.
    pub fn buffer(&self) -> (b: &cosmic_text::Buffer)
        ensures
            buffer_lines(*b) == self.layout(),
    {
        &self.buffer
    }
}

/// A frame prepared after a resize to (width, height) carries exactly
/// (width, height): the configured and the presented dimensions never
/// drift apart.
pub proof fn lemma_frame_matches_resize(r: Renderer, width: u32, height: u32)
    ensures
        r.resized(width, height).surface_config() == (SurfaceConfig { width, height }),
{
}

/// Of two rapid resizes only the second endures: the state after both
/// equals the state after the second alone, so no frame prepared
/// after both can carry the first pair of dimensions.
pub proof fn lemma_second_resize_wins(r: Renderer, w1: u32, h1: u32, w2: u32, h2: u32)
    ensures
        r.resized(w1, h1).resized(w2, h2) == r.resized(w2, h2),
{
}

} // verus!
