//! The capabilities of a rendering backend.
//!
//! A backend draws for an application whose types it takes as they come: its
//! options, its cells, its colours. The traits here say which operations a
//! backend has. What an operation does to a backend is the backend's own
//! affair: each trait names one relation per operation, which every backend
//! states for itself, and each operation promises that relation between the
//! state it found and the state it left. Lending a context is an operation
//! like the others: what the backend is once the context has ended stands in a
//! relation to what it was when it lent it.
use vstd::prelude::*;

verus! {

/// The types of the application that a backend draws for.
pub trait Terminal {
    /// The rendering options.
    type Config;

    /// The geometry of the surface and of its grid of cells, as of one frame.
    type SizeInfo;

    /// The size of the drawable area in physical pixels.
    type Size;

    /// The width of the padding on one side of the grid.
    type Padding;

    /// How strongly the visual bell shows, from not at all to fully.
    type Intensity;

    /// The rectangles that decorate a frame: underlines, the cursor's box, the
    /// visual bell.
    type Rects;

    /// A colour.
    type Color;

    /// The number of a row of the grid.
    type Line;

    /// One cell of the grid with all that is needed to draw it.
    type Cell;

    /// The glyphs loaded so far, by the handles the backend gave for them.
    type GlyphCache;

    /// The bitmap of one glyph with its metrics.
    type RasterizedGlyph;

    /// The handle a loaded glyph is drawn by. It means something to the backend
    /// that gave it, and to no other.
    type Glyph;
}

/// Drawing into the frame at hand.
pub trait RenderApi<T: Terminal> {
    /// What `render_string` may do.
    spec fn string_rendered(
        &self,
        after: &Self,
        string: &str,
        line: T::Line,
        glyph_cache: T::GlyphCache,
        glyph_cache_after: T::GlyphCache,
        color: Option<T::Color>,
    ) -> bool;

    /// What `render_cell` may do.
    spec fn cell_rendered(
        &self,
        after: &Self,
        cell: T::Cell,
        glyph_cache: T::GlyphCache,
        glyph_cache_after: T::GlyphCache,
    ) -> bool;

    /// Fills the frame with one colour.
    fn clear(&self, color: T::Color);

    /// Draws the glyphs of `string` along one row of the grid, in `color` where
    /// one is given.
    fn render_string(
        &mut self,
        string: &str,
        line: T::Line,
        glyph_cache: &mut T::GlyphCache,
        color: Option<T::Color>,
    )
        ensures
            old(self).string_rendered(
                final(self),
                string,
                line,
                *old(glyph_cache),
                *final(glyph_cache),
                color,
            ),
    ;

    /// Draws one cell.
    fn render_cell(&mut self, cell: T::Cell, glyph_cache: &mut T::GlyphCache)
        ensures
            old(self).cell_rendered(final(self), cell, *old(glyph_cache), *final(glyph_cache)),
    ;
}

/// Loading glyphs into the backend's own storage.
pub trait LoaderApi<T: Terminal> {
    /// What `load_glyph` may do and return.
    spec fn glyph_loaded(
        &self,
        after: &Self,
        rasterized: T::RasterizedGlyph,
        glyph: T::Glyph,
    ) -> bool;

    /// What `clear` may do.
    spec fn cleared(&self, after: &Self) -> bool;

    /// Takes a glyph's bitmap in and gives the handle to draw it by.
    fn load_glyph(&mut self, rasterized: &T::RasterizedGlyph) -> (glyph: T::Glyph)
        ensures
            old(self).glyph_loaded(final(self), *rasterized, glyph),
    ;

    /// Drops every glyph loaded so far. The handles given for them mean
    /// nothing afterwards.
    fn clear(&mut self)
        ensures
            old(self).cleared(final(self)),
    ;
}

/// A rendering backend.
///
/// The contexts it lends hold the backend for as long as they live: while one
/// is out, the backend cannot be resized, drawn on or lent again. What the
/// backend is after a loan is said of the value it has once the context has
/// ended.
pub trait Renderer<'a, T: Terminal>: Sized {
    /// The context that loads glyphs.
    type LoaderApi: LoaderApi<T>;

    /// The context that draws a frame.
    type RenderApi: RenderApi<T>;

    /// What `resize` may do.
    spec fn resized(
        &self,
        after: &Self,
        size: T::Size,
        padding_x: T::Padding,
        padding_y: T::Padding,
    ) -> bool;

    /// What `draw_rects` may do.
    spec fn rects_drawn(
        &self,
        after: &Self,
        config: &T::Config,
        props: &T::SizeInfo,
        visual_bell_intensity: T::Intensity,
        cell_line_rects: T::Rects,
    ) -> bool;

    /// Whether `api` is a context that this backend, in this state, lends for a
    /// frame with these options and this geometry.
    spec fn lends_api(
        &self,
        config: &T::Config,
        props: &T::SizeInfo,
        api: Self::RenderApi,
    ) -> bool;

    /// Whether `loader` is a context that this backend, in this state, lends
    /// for loading glyphs.
    spec fn lends_loader(&self, loader: Self::LoaderApi) -> bool;

    /// What a frame may leave of the backend: whether `after` is how the
    /// backend may stand once a context it lent for these options and this
    /// geometry has ended.
    spec fn frame_ended(&self, after: &Self, config: &T::Config, props: &T::SizeInfo) -> bool;

    /// What loading glyphs may leave of the backend: whether `after` is how the
    /// backend may stand once a loading context it lent has ended.
    spec fn loading_ended(&self, after: &Self) -> bool;

    /// Fits the backend to a drawable area of a new size.
    fn resize(&mut self, size: T::Size, padding_x: T::Padding, padding_y: T::Padding)
        ensures
            old(self).resized(final(self), size, padding_x, padding_y),
    ;

    /// Draws the rectangles that decorate the frame.
    fn draw_rects(
        &mut self,
        config: &T::Config,
        props: &T::SizeInfo,
        visual_bell_intensity: T::Intensity,
        cell_line_rects: T::Rects,
    )
        ensures
            old(self).rects_drawn(
                final(self),
                config,
                props,
                visual_bell_intensity,
                cell_line_rects,
            ),
    ;

    /// Lends the context that draws a frame. The backend is free again once the
    /// context has ended, and stands then as a frame may leave it.
    fn borrow_api(&'a mut self, config: &'a T::Config, props: &'a T::SizeInfo) -> (api:
        Self::RenderApi)
        ensures
            old(self).lends_api(config, props, api),
            old(self).frame_ended(final(self), config, props),
    ;

    /// Lends the context that loads glyphs. The backend is free again once the
    /// context has ended, and stands then as loading may leave it.
    fn borrow_loader(&'a mut self) -> (loader: Self::LoaderApi)
        ensures
            old(self).lends_loader(loader),
            old(self).loading_ended(final(self)),
    ;

    /// Runs `func` on the context that draws a frame and returns what it
    /// returns. The context goes to `func` and ends with it; the backend stands
    /// afterwards as a frame may leave it.
    fn with_api<F, R>(&'a mut self, config: &'a T::Config, props: &'a T::SizeInfo, func: F) -> (result:
        R) where F: FnOnce(Self::RenderApi) -> R
        requires
            forall|api: Self::RenderApi|
                old(self).lends_api(config, props, api) ==> call_requires(func, (api,)),
        ensures
            exists|api: Self::RenderApi|
                old(self).lends_api(config, props, api) && call_ensures(func, (api,), result),
            old(self).frame_ended(final(self), config, props),
    {
        let api = self.borrow_api(config, props);
        func(api)
    }

    /// Runs `func` on the context that loads glyphs and returns what it
    /// returns. The context goes to `func` and ends with it; the backend stands
    /// afterwards as loading may leave it.
    fn with_loader<F, R>(&'a mut self, func: F) -> (result: R) where
        F: FnOnce(Self::LoaderApi) -> R,

        requires
            forall|loader: Self::LoaderApi|
                old(self).lends_loader(loader) ==> call_requires(func, (loader,)),
        ensures
            exists|loader: Self::LoaderApi|
                old(self).lends_loader(loader) && call_ensures(func, (loader,), result),
            old(self).loading_ended(final(self)),
    {
        let loader = self.borrow_loader();
        func(loader)
    }
}

} // verus!
