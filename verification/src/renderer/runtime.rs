//! One type over the backends, whichever is running.
//!
//! Each of the three types here holds one of two variants and does what its
//! variant does: every operation goes to the variant held, with the arguments
//! as given, and comes back with what that variant returned. No operation
//! changes which variant is held, a loan of a context no more than any other.
use vstd::prelude::*;

use super::generic::{LoaderApi, RenderApi, Renderer, Terminal};
use crate::config::renderer::RendererApi;

verus! {

/// The drawing context of whichever backend is running.
pub enum RuntimeRenderer<A, B> {
    Classic(A),
    Vulkan(B),
}

impl<A, B> RuntimeRenderer<A, B> {
    /// Which backend's context is held.
    pub open spec fn held(self) -> RendererApi {
        match self {
            RuntimeRenderer::Classic(_) => RendererApi::Classic,
            RuntimeRenderer::Vulkan(_) => RendererApi::Vulkan,
        }
    }
}

impl<T: Terminal, A: RenderApi<T>, B: RenderApi<T>> RenderApi<T> for RuntimeRenderer<A, B> {
    open spec fn string_rendered(
        &self,
        after: &Self,
        string: &str,
        line: T::Line,
        glyph_cache: T::GlyphCache,
        glyph_cache_after: T::GlyphCache,
        color: Option<T::Color>,
    ) -> bool {
        match (*self, *after) {
            (RuntimeRenderer::Classic(a), RuntimeRenderer::Classic(b)) => a.string_rendered(
                &b,
                string,
                line,
                glyph_cache,
                glyph_cache_after,
                color,
            ),
            (RuntimeRenderer::Vulkan(a), RuntimeRenderer::Vulkan(b)) => a.string_rendered(
                &b,
                string,
                line,
                glyph_cache,
                glyph_cache_after,
                color,
            ),
            _ => false,
        }
    }

    open spec fn cell_rendered(
        &self,
        after: &Self,
        cell: T::Cell,
        glyph_cache: T::GlyphCache,
        glyph_cache_after: T::GlyphCache,
    ) -> bool {
        match (*self, *after) {
            (RuntimeRenderer::Classic(a), RuntimeRenderer::Classic(b)) => a.cell_rendered(
                &b,
                cell,
                glyph_cache,
                glyph_cache_after,
            ),
            (RuntimeRenderer::Vulkan(a), RuntimeRenderer::Vulkan(b)) => a.cell_rendered(
                &b,
                cell,
                glyph_cache,
                glyph_cache_after,
            ),
            _ => false,
        }
    }

    fn clear(&self, color: T::Color) {
        match self {
            RuntimeRenderer::Classic(r) => r.clear(color),
            RuntimeRenderer::Vulkan(r) => r.clear(color),
        }
    }

    fn render_string(
        &mut self,
        string: &str,
        line: T::Line,
        glyph_cache: &mut T::GlyphCache,
        color: Option<T::Color>,
    )
        ensures
            final(self).held() == old(self).held(),
    {
        match self {
            RuntimeRenderer::Classic(r) => r.render_string(string, line, glyph_cache, color),
            RuntimeRenderer::Vulkan(r) => r.render_string(string, line, glyph_cache, color),
        }
    }

    fn render_cell(&mut self, cell: T::Cell, glyph_cache: &mut T::GlyphCache)
        ensures
            final(self).held() == old(self).held(),
    {
        match self {
            RuntimeRenderer::Classic(r) => r.render_cell(cell, glyph_cache),
            RuntimeRenderer::Vulkan(r) => r.render_cell(cell, glyph_cache),
        }
    }
}

/// The glyph-loading context of whichever backend is running.
pub enum RuntimeLoader<A, B> {
    Classic(A),
    Vulkan(B),
}

impl<A, B> RuntimeLoader<A, B> {
    /// Which backend's context is held.
    pub open spec fn held(self) -> RendererApi {
        match self {
            RuntimeLoader::Classic(_) => RendererApi::Classic,
            RuntimeLoader::Vulkan(_) => RendererApi::Vulkan,
        }
    }
}

impl<T: Terminal, A: LoaderApi<T>, B: LoaderApi<T>> LoaderApi<T> for RuntimeLoader<A, B> {
    open spec fn glyph_loaded(
        &self,
        after: &Self,
        rasterized: T::RasterizedGlyph,
        glyph: T::Glyph,
    ) -> bool {
        match (*self, *after) {
            (RuntimeLoader::Classic(a), RuntimeLoader::Classic(b)) => a.glyph_loaded(
                &b,
                rasterized,
                glyph,
            ),
            (RuntimeLoader::Vulkan(a), RuntimeLoader::Vulkan(b)) => a.glyph_loaded(
                &b,
                rasterized,
                glyph,
            ),
            _ => false,
        }
    }

    open spec fn cleared(&self, after: &Self) -> bool {
        match (*self, *after) {
            (RuntimeLoader::Classic(a), RuntimeLoader::Classic(b)) => a.cleared(&b),
            (RuntimeLoader::Vulkan(a), RuntimeLoader::Vulkan(b)) => a.cleared(&b),
            _ => false,
        }
    }

    fn load_glyph(&mut self, rasterized: &T::RasterizedGlyph) -> (glyph: T::Glyph)
        ensures
            final(self).held() == old(self).held(),
    {
        match self {
            RuntimeLoader::Classic(r) => r.load_glyph(rasterized),
            RuntimeLoader::Vulkan(r) => r.load_glyph(rasterized),
        }
    }

    fn clear(&mut self)
        ensures
            final(self).held() == old(self).held(),
    {
        match self {
            RuntimeLoader::Classic(r) => r.clear(),
            RuntimeLoader::Vulkan(r) => r.clear(),
        }
    }
}

/// The backend that is running: the one chosen when the application started,
/// held until it ends.
pub enum RuntimeQuadRenderer<C, V> {
    Classic(C),
    Vulkan(V),
}

impl<C, V> RuntimeQuadRenderer<C, V> {
    /// Which backend is held.
    pub open spec fn held(self) -> RendererApi {
        match self {
            RuntimeQuadRenderer::Classic(_) => RendererApi::Classic,
            RuntimeQuadRenderer::Vulkan(_) => RendererApi::Vulkan,
        }
    }

    /// Which backend is held.
    pub fn api(&self) -> (api: RendererApi)
        ensures
            api == self.held(),
    {
        match self {
            RuntimeQuadRenderer::Classic(_) => RendererApi::Classic,
            RuntimeQuadRenderer::Vulkan(_) => RendererApi::Vulkan,
        }
    }
}

impl<'a, T, C, V> Renderer<'a, T> for RuntimeQuadRenderer<C, V> where
    T: Terminal,
    C: Renderer<'a, T>,
    V: Renderer<'a, T>,
 {
    type LoaderApi = RuntimeLoader<C::LoaderApi, V::LoaderApi>;

    type RenderApi = RuntimeRenderer<C::RenderApi, V::RenderApi>;

    open spec fn resized(
        &self,
        after: &Self,
        size: T::Size,
        padding_x: T::Padding,
        padding_y: T::Padding,
    ) -> bool {
        match (*self, *after) {
            (RuntimeQuadRenderer::Classic(a), RuntimeQuadRenderer::Classic(b)) => a.resized(
                &b,
                size,
                padding_x,
                padding_y,
            ),
            (RuntimeQuadRenderer::Vulkan(a), RuntimeQuadRenderer::Vulkan(b)) => a.resized(
                &b,
                size,
                padding_x,
                padding_y,
            ),
            _ => false,
        }
    }

    open spec fn rects_drawn(
        &self,
        after: &Self,
        config: &T::Config,
        props: &T::SizeInfo,
        visual_bell_intensity: T::Intensity,
        cell_line_rects: T::Rects,
    ) -> bool {
        match (*self, *after) {
            (RuntimeQuadRenderer::Classic(a), RuntimeQuadRenderer::Classic(b)) => a.rects_drawn(
                &b,
                config,
                props,
                visual_bell_intensity,
                cell_line_rects,
            ),
            (RuntimeQuadRenderer::Vulkan(a), RuntimeQuadRenderer::Vulkan(b)) => a.rects_drawn(
                &b,
                config,
                props,
                visual_bell_intensity,
                cell_line_rects,
            ),
            _ => false,
        }
    }

    open spec fn lends_api(
        &self,
        config: &T::Config,
        props: &T::SizeInfo,
        api: Self::RenderApi,
    ) -> bool {
        match (*self, api) {
            (RuntimeQuadRenderer::Classic(a), RuntimeRenderer::Classic(b)) => a.lends_api(
                config,
                props,
                b,
            ),
            (RuntimeQuadRenderer::Vulkan(a), RuntimeRenderer::Vulkan(b)) => a.lends_api(
                config,
                props,
                b,
            ),
            _ => false,
        }
    }

    open spec fn lends_loader(&self, loader: Self::LoaderApi) -> bool {
        match (*self, loader) {
            (RuntimeQuadRenderer::Classic(a), RuntimeLoader::Classic(b)) => a.lends_loader(b),
            (RuntimeQuadRenderer::Vulkan(a), RuntimeLoader::Vulkan(b)) => a.lends_loader(b),
            _ => false,
        }
    }

    open spec fn frame_ended(&self, after: &Self, config: &T::Config, props: &T::SizeInfo) -> bool {
        match (*self, *after) {
            (RuntimeQuadRenderer::Classic(a), RuntimeQuadRenderer::Classic(b)) => a.frame_ended(
                &b,
                config,
                props,
            ),
            (RuntimeQuadRenderer::Vulkan(a), RuntimeQuadRenderer::Vulkan(b)) => a.frame_ended(
                &b,
                config,
                props,
            ),
            _ => false,
        }
    }

    open spec fn loading_ended(&self, after: &Self) -> bool {
        match (*self, *after) {
            (RuntimeQuadRenderer::Classic(a), RuntimeQuadRenderer::Classic(b)) => a.loading_ended(
                &b,
            ),
            (RuntimeQuadRenderer::Vulkan(a), RuntimeQuadRenderer::Vulkan(b)) => a.loading_ended(&b),
            _ => false,
        }
    }

    fn resize(&mut self, size: T::Size, padding_x: T::Padding, padding_y: T::Padding)
        ensures
            final(self).held() == old(self).held(),
    {
        match self {
            RuntimeQuadRenderer::Classic(r) => r.resize(size, padding_x, padding_y),
            RuntimeQuadRenderer::Vulkan(r) => r.resize(size, padding_x, padding_y),
        }
    }

    fn draw_rects(
        &mut self,
        config: &T::Config,
        props: &T::SizeInfo,
        visual_bell_intensity: T::Intensity,
        cell_line_rects: T::Rects,
    )
        ensures
            final(self).held() == old(self).held(),
    {
        match self {
            RuntimeQuadRenderer::Classic(r) => r.draw_rects(
                config,
                props,
                visual_bell_intensity,
                cell_line_rects,
            ),
            RuntimeQuadRenderer::Vulkan(r) => r.draw_rects(
                config,
                props,
                visual_bell_intensity,
                cell_line_rects,
            ),
        }
    }

    fn borrow_api(&'a mut self, config: &'a T::Config, props: &'a T::SizeInfo) -> (api:
        Self::RenderApi)
        ensures
            api.held() == old(self).held(),
            final(self).held() == old(self).held(),
    {
        match self {
            RuntimeQuadRenderer::Classic(r) => RuntimeRenderer::Classic(
                r.borrow_api(config, props),
            ),
            RuntimeQuadRenderer::Vulkan(r) => RuntimeRenderer::Vulkan(r.borrow_api(config, props)),
        }
    }

    fn borrow_loader(&'a mut self) -> (loader: Self::LoaderApi)
        ensures
            loader.held() == old(self).held(),
            final(self).held() == old(self).held(),
    {
        match self {
            RuntimeQuadRenderer::Classic(r) => RuntimeLoader::Classic(r.borrow_loader()),
            RuntimeQuadRenderer::Vulkan(r) => RuntimeLoader::Vulkan(r.borrow_loader()),
        }
    }
}

/// A resize of the dispatcher is a resize of the backend it holds: the
/// dispatcher holds the same variant afterwards, and that backend went from its
/// state before to its state after as its own resize does, with the size and
/// the paddings as given.
pub proof fn lemma_resize_goes_to_the_backend_held<'a, T, C, V>(
    before: RuntimeQuadRenderer<C, V>,
    after: RuntimeQuadRenderer<C, V>,
    size: T::Size,
    padding_x: T::Padding,
    padding_y: T::Padding,
) where
    T: Terminal,
    C: Renderer<'a, T>,
    V: Renderer<'a, T>,

    requires
        before.resized(&after, size, padding_x, padding_y),
    ensures
        after.held() == before.held(),
        match before {
            RuntimeQuadRenderer::Classic(backend) => after matches RuntimeQuadRenderer::Classic(
                resized,
            ) && backend.resized(&resized, size, padding_x, padding_y),
            RuntimeQuadRenderer::Vulkan(backend) => after matches RuntimeQuadRenderer::Vulkan(
                resized,
            ) && backend.resized(&resized, size, padding_x, padding_y),
        },
{
}

/// Drawing rectangles through the dispatcher is drawing them on the backend it
/// holds: the dispatcher holds the same variant afterwards, and that backend
/// went from its state before to its state after as its own drawing does, with
/// the arguments as given.
pub proof fn lemma_rects_go_to_the_backend_held<'a, T, C, V>(
    before: RuntimeQuadRenderer<C, V>,
    after: RuntimeQuadRenderer<C, V>,
    config: &T::Config,
    props: &T::SizeInfo,
    visual_bell_intensity: T::Intensity,
    cell_line_rects: T::Rects,
) where
    T: Terminal,
    C: Renderer<'a, T>,
    V: Renderer<'a, T>,

    requires
        before.rects_drawn(&after, config, props, visual_bell_intensity, cell_line_rects),
    ensures
        after.held() == before.held(),
        match before {
            RuntimeQuadRenderer::Classic(backend) => after matches RuntimeQuadRenderer::Classic(
                drawn,
            ) && backend.rects_drawn(&drawn, config, props, visual_bell_intensity, cell_line_rects),
            RuntimeQuadRenderer::Vulkan(backend) => after matches RuntimeQuadRenderer::Vulkan(
                drawn,
            ) && backend.rects_drawn(&drawn, config, props, visual_bell_intensity, cell_line_rects),
        },
{
}

/// A context lent by the dispatcher is the context of the backend it holds, of
/// the same variant, lent by that backend for the same options and geometry.
pub proof fn lemma_context_is_of_the_backend_held<'a, T, C, V>(
    backend: RuntimeQuadRenderer<C, V>,
    config: &T::Config,
    props: &T::SizeInfo,
    api: RuntimeRenderer<C::RenderApi, V::RenderApi>,
) where
    T: Terminal,
    C: Renderer<'a, T>,
    V: Renderer<'a, T>,

    requires
        backend.lends_api(config, props, api),
    ensures
        match backend {
            RuntimeQuadRenderer::Classic(held) => api matches RuntimeRenderer::Classic(lent)
                && held.lends_api(config, props, lent),
            RuntimeQuadRenderer::Vulkan(held) => api matches RuntimeRenderer::Vulkan(lent)
                && held.lends_api(config, props, lent),
        },
{
}

/// A glyph-loading context lent by the dispatcher is the context of the backend
/// it holds, of the same variant, lent by that backend.
pub proof fn lemma_loader_is_of_the_backend_held<'a, T, C, V>(
    backend: RuntimeQuadRenderer<C, V>,
    loader: RuntimeLoader<C::LoaderApi, V::LoaderApi>,
) where
    T: Terminal,
    C: Renderer<'a, T>,
    V: Renderer<'a, T>,

    requires
        backend.lends_loader(loader),
    ensures
        match backend {
            RuntimeQuadRenderer::Classic(held) => loader matches RuntimeLoader::Classic(lent)
                && held.lends_loader(lent),
            RuntimeQuadRenderer::Vulkan(held) => loader matches RuntimeLoader::Vulkan(lent)
                && held.lends_loader(lent),
        },
{
}

/// A frame drawn through the dispatcher leaves it holding the backend it held:
/// once the context has ended, the variant is the same, and that backend
/// stands as one of its own frames, for these options and this geometry, may
/// leave it.
pub proof fn lemma_frame_leaves_the_backend_held<'a, T, C, V>(
    before: RuntimeQuadRenderer<C, V>,
    after: RuntimeQuadRenderer<C, V>,
    config: &T::Config,
    props: &T::SizeInfo,
) where
    T: Terminal,
    C: Renderer<'a, T>,
    V: Renderer<'a, T>,

    requires
        before.frame_ended(&after, config, props),
    ensures
        after.held() == before.held(),
        match before {
            RuntimeQuadRenderer::Classic(backend) => after matches RuntimeQuadRenderer::Classic(
                left,
            ) && backend.frame_ended(&left, config, props),
            RuntimeQuadRenderer::Vulkan(backend) => after matches RuntimeQuadRenderer::Vulkan(
                left,
            ) && backend.frame_ended(&left, config, props),
        },
{
}

/// Loading glyphs through the dispatcher leaves it holding the backend it
/// held: once the context has ended, the variant is the same, and that backend
/// stands as its own loading may leave it.
pub proof fn lemma_loading_leaves_the_backend_held<'a, T, C, V>(
    before: RuntimeQuadRenderer<C, V>,
    after: RuntimeQuadRenderer<C, V>,
) where
    T: Terminal,
    C: Renderer<'a, T>,
    V: Renderer<'a, T>,

    requires
        Renderer::<'a, T>::loading_ended(&before, &after),
    ensures
        after.held() == before.held(),
        match before {
            RuntimeQuadRenderer::Classic(backend) => after matches RuntimeQuadRenderer::Classic(
                left,
            ) && Renderer::<'a, T>::loading_ended(&backend, &left),
            RuntimeQuadRenderer::Vulkan(backend) => after matches RuntimeQuadRenderer::Vulkan(
                left,
            ) && Renderer::<'a, T>::loading_ended(&backend, &left),
        },
{
}

} // verus!
