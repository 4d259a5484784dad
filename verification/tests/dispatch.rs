use alacritty_terminal::config::renderer::DisabledBackend;
use alacritty_terminal::config::RendererApi;
use alacritty_terminal::renderer::generic::{LoaderApi, RenderApi, Renderer, Terminal};
use alacritty_terminal::renderer::runtime::{RuntimeLoader, RuntimeQuadRenderer, RuntimeRenderer};
use std::cell::RefCell;

/// The application's types as the tests have them.
struct Grid;

impl Terminal for Grid {
    type Config = &'static str;
    type SizeInfo = (f32, f32);
    type Size = (f64, f64);
    type Padding = f32;
    type Intensity = f64;
    type Rects = Vec<(f32, f32, f32, f32)>;
    type Color = (u8, u8, u8);
    type Line = usize;
    type Cell = char;
    type GlyphCache = Vec<char>;
    type RasterizedGlyph = Vec<u8>;
    type Glyph = (&'static str, u32);
}

/// A backend that writes down what it is asked to do.
struct Recorder {
    name: &'static str,
    calls: RefCell<Vec<String>>,
    glyphs: u32,
}

impl Recorder {
    fn new(name: &'static str) -> Recorder {
        Recorder { name, calls: RefCell::new(Vec::new()), glyphs: 0 }
    }

    fn calls(&self) -> Vec<String> {
        self.calls.borrow().clone()
    }
}

struct RecorderApi<'a> {
    backend: &'a mut Recorder,
    config: &'a &'static str,
    props: &'a (f32, f32),
}

struct RecorderLoader<'a> {
    backend: &'a mut Recorder,
}

impl<'a> RenderApi<Grid> for RecorderApi<'a> {
    fn string_rendered(
        &self,
        _after: &Self,
        _string: &str,
        _line: usize,
        _glyph_cache: Vec<char>,
        _glyph_cache_after: Vec<char>,
        _color: Option<(u8, u8, u8)>,
    ) -> bool {
        true
    }

    fn cell_rendered(
        &self,
        _after: &Self,
        _cell: char,
        _glyph_cache: Vec<char>,
        _glyph_cache_after: Vec<char>,
    ) -> bool {
        true
    }

    fn clear(&self, color: (u8, u8, u8)) {
        self.backend.calls.borrow_mut().push(format!("clear {:?}", color));
    }

    fn render_string(
        &mut self,
        string: &str,
        line: usize,
        glyph_cache: &mut Vec<char>,
        color: Option<(u8, u8, u8)>,
    ) {
        glyph_cache.extend(string.chars());
        self.backend.calls.borrow_mut().push(format!("string {:?} {} {:?}", string, line, color));
    }

    fn render_cell(&mut self, cell: char, glyph_cache: &mut Vec<char>) {
        glyph_cache.push(cell);
        self.backend.calls.borrow_mut().push(format!(
            "cell {:?} {} {:?}",
            cell, self.config, self.props
        ));
    }
}

impl<'a> LoaderApi<Grid> for RecorderLoader<'a> {
    fn glyph_loaded(&self, _after: &Self, _rasterized: Vec<u8>, _glyph: (&'static str, u32)) -> bool {
        true
    }

    fn cleared(&self, _after: &Self) -> bool {
        true
    }

    fn load_glyph(&mut self, rasterized: &Vec<u8>) -> (&'static str, u32) {
        self.backend.glyphs += 1;
        self.backend.calls.borrow_mut().push(format!("load {:?}", rasterized));
        (self.backend.name, self.backend.glyphs)
    }

    fn clear(&mut self) {
        self.backend.glyphs = 0;
        self.backend.calls.borrow_mut().push(String::from("clear glyphs"));
    }
}

impl<'a> Renderer<'a, Grid> for Recorder {
    type LoaderApi = RecorderLoader<'a>;
    type RenderApi = RecorderApi<'a>;

    fn resized(&self, _after: &Self, _size: (f64, f64), _padding_x: f32, _padding_y: f32) -> bool {
        true
    }

    fn rects_drawn(
        &self,
        _after: &Self,
        _config: &&'static str,
        _props: &(f32, f32),
        _visual_bell_intensity: f64,
        _cell_line_rects: Vec<(f32, f32, f32, f32)>,
    ) -> bool {
        true
    }

    fn lends_api(&self, _config: &&'static str, _props: &(f32, f32), _api: RecorderApi<'a>) -> bool {
        true
    }

    fn lends_loader(&self, _loader: RecorderLoader<'a>) -> bool {
        true
    }

    fn frame_ended(&self, _after: &Self, _config: &&'static str, _props: &(f32, f32)) -> bool {
        true
    }

    fn loading_ended(&self, _after: &Self) -> bool {
        true
    }

    fn resize(&mut self, size: (f64, f64), padding_x: f32, padding_y: f32) {
        self.calls.borrow_mut().push(format!("resize {:?} {} {}", size, padding_x, padding_y));
    }

    fn draw_rects(
        &mut self,
        config: &&'static str,
        props: &(f32, f32),
        visual_bell_intensity: f64,
        cell_line_rects: Vec<(f32, f32, f32, f32)>,
    ) {
        self.calls.borrow_mut().push(format!(
            "rects {} {:?} {} {}",
            config,
            props,
            visual_bell_intensity,
            cell_line_rects.len()
        ));
    }

    fn borrow_api(&'a mut self, config: &'a &'static str, props: &'a (f32, f32)) -> RecorderApi<'a> {
        RecorderApi { backend: self, config, props }
    }

    fn borrow_loader(&'a mut self) -> RecorderLoader<'a> {
        RecorderLoader { backend: self }
    }
}

type Dispatcher = RuntimeQuadRenderer<Recorder, Recorder>;

fn calls(dispatcher: &Dispatcher) -> (&'static str, Vec<String>) {
    match dispatcher {
        RuntimeQuadRenderer::Classic(backend) => ("classic", backend.calls()),
        RuntimeQuadRenderer::Vulkan(backend) => ("vulkan", backend.calls()),
    }
}

#[test]
fn resize_goes_to_the_classic_backend_alone() {
    let bystander = Recorder::new("vulkan");
    let mut dispatcher: Dispatcher = RuntimeQuadRenderer::Classic(Recorder::new("classic"));
    dispatcher.resize((800.0, 600.0), 2.0, 4.5);
    assert_eq!(calls(&dispatcher), ("classic", vec![String::from("resize (800.0, 600.0) 2 4.5")]));
    assert!(bystander.calls().is_empty());
}

#[test]
fn resize_goes_to_the_vulkan_backend_alone() {
    let bystander = Recorder::new("classic");
    let mut dispatcher: Dispatcher = RuntimeQuadRenderer::Vulkan(Recorder::new("vulkan"));
    dispatcher.resize((1.0, 2.0), 0.0, 0.0);
    dispatcher.resize((3.0, 4.0), 1.0, 1.0);
    assert_eq!(
        calls(&dispatcher),
        (
            "vulkan",
            vec![String::from("resize (1.0, 2.0) 0 0"), String::from("resize (3.0, 4.0) 1 1")]
        )
    );
    assert!(bystander.calls().is_empty());
}

#[test]
fn rects_go_to_the_backend_held() {
    let mut dispatcher: Dispatcher = RuntimeQuadRenderer::Vulkan(Recorder::new("vulkan"));
    dispatcher.draw_rects(&"options", &(8.0, 16.0), 0.25, vec![(0.0, 0.0, 1.0, 1.0)]);
    assert_eq!(calls(&dispatcher), ("vulkan", vec![String::from("rects options (8.0, 16.0) 0.25 1")]));
}

#[test]
fn frame_context_is_of_the_backend_held() {
    let mut classic: Dispatcher = RuntimeQuadRenderer::Classic(Recorder::new("classic"));
    let config = "options";
    let props = (8.0f32, 16.0f32);
    match classic.borrow_api(&config, &props) {
        RuntimeRenderer::Classic(_) => {},
        RuntimeRenderer::Vulkan(_) => panic!("context of the other backend"),
    }
    let mut vulkan: Dispatcher = RuntimeQuadRenderer::Vulkan(Recorder::new("vulkan"));
    match vulkan.borrow_api(&config, &props) {
        RuntimeRenderer::Vulkan(_) => {},
        RuntimeRenderer::Classic(_) => panic!("context of the other backend"),
    }
}

#[test]
fn frame_context_forwards_every_draw() {
    let mut dispatcher: Dispatcher = RuntimeQuadRenderer::Classic(Recorder::new("classic"));
    let config = "options";
    let props = (8.0f32, 16.0f32);
    let mut cache = Vec::new();
    {
        let mut api = dispatcher.borrow_api(&config, &props);
        api.clear((1, 2, 3));
        api.render_string("ab", 4, &mut cache, None);
        api.render_string("c", 5, &mut cache, Some((9, 9, 9)));
        api.render_cell('x', &mut cache);
    }
    assert_eq!(cache, vec!['a', 'b', 'c', 'x']);
    assert_eq!(
        calls(&dispatcher),
        (
            "classic",
            vec![
                String::from("clear (1, 2, 3)"),
                String::from("string \"ab\" 4 None"),
                String::from("string \"c\" 5 Some((9, 9, 9))"),
                String::from("cell 'x' options (8.0, 16.0)"),
            ]
        )
    );
}

#[test]
fn with_api_returns_what_the_body_returns() {
    let mut dispatcher: Dispatcher = RuntimeQuadRenderer::Vulkan(Recorder::new("vulkan"));
    let config = "options";
    let props = (1.0f32, 2.0f32);
    let mut cache = Vec::new();
    let answer = dispatcher.with_api(&config, &props, |mut api| {
        api.render_cell('q', &mut cache);
        41 + 1
    });
    assert_eq!(answer, 42);
    assert_eq!(calls(&dispatcher), ("vulkan", vec![String::from("cell 'q' options (1.0, 2.0)")]));
}

#[test]
fn with_api_gives_the_backend_back_on_an_early_exit() {
    let mut dispatcher: Dispatcher = RuntimeQuadRenderer::Classic(Recorder::new("classic"));
    let config = "options";
    let props = (1.0f32, 2.0f32);
    let outcome: Result<u8, &'static str> = dispatcher.with_api(&config, &props, |api| {
        api.clear((0, 0, 0));
        if true {
            return Err("stopped");
        }
        Ok(1)
    });
    assert_eq!(outcome, Err("stopped"));
    dispatcher.resize((1.0, 1.0), 0.0, 0.0);
    let again = dispatcher.with_api(&config, &props, |api| {
        api.clear((1, 1, 1));
        2
    });
    assert_eq!(again, 2);
    assert_eq!(
        calls(&dispatcher),
        (
            "classic",
            vec![
                String::from("clear (0, 0, 0)"),
                String::from("resize (1.0, 1.0) 0 0"),
                String::from("clear (1, 1, 1)"),
            ]
        )
    );
}

#[test]
fn contexts_follow_one_another() {
    let mut dispatcher: Dispatcher = RuntimeQuadRenderer::Vulkan(Recorder::new("vulkan"));
    let config = "options";
    let props = (1.0f32, 2.0f32);
    let first = dispatcher.with_loader(|mut loader| loader.load_glyph(&vec![1, 2]));
    let second = dispatcher.with_loader(|mut loader| loader.load_glyph(&vec![3]));
    dispatcher.with_api(&config, &props, |api| api.clear((5, 5, 5)));
    dispatcher.with_loader(|mut loader| loader.clear());
    let third = dispatcher.with_loader(|mut loader| loader.load_glyph(&Vec::new()));
    assert_eq!(first, ("vulkan", 1));
    assert_eq!(second, ("vulkan", 2));
    assert_eq!(third, ("vulkan", 1));
    assert_eq!(
        calls(&dispatcher),
        (
            "vulkan",
            vec![
                String::from("load [1, 2]"),
                String::from("load [3]"),
                String::from("clear (5, 5, 5)"),
                String::from("clear glyphs"),
                String::from("load []"),
            ]
        )
    );
}

#[test]
fn loader_context_is_of_the_backend_held() {
    let mut classic: Dispatcher = RuntimeQuadRenderer::Classic(Recorder::new("classic"));
    match classic.borrow_loader() {
        RuntimeLoader::Classic(mut loader) => assert_eq!(loader.load_glyph(&vec![7]), ("classic", 1)),
        RuntimeLoader::Vulkan(_) => panic!("context of the other backend"),
    }
    let mut vulkan: Dispatcher = RuntimeQuadRenderer::Vulkan(Recorder::new("vulkan"));
    match vulkan.borrow_loader() {
        RuntimeLoader::Vulkan(_) => {},
        RuntimeLoader::Classic(_) => panic!("context of the other backend"),
    }
    assert_eq!(classic.with_loader(|mut loader| loader.load_glyph(&vec![8])), ("classic", 2));
}

#[test]
fn classic_is_the_default_backend() {
    assert_eq!(RendererApi::default(), RendererApi::Classic);
}

#[test]
fn enabled_backend_is_selected() {
    assert_eq!(RendererApi::Classic.select(false), Ok(RendererApi::Classic));
    assert_eq!(RendererApi::Classic.select(true), Ok(RendererApi::Classic));
    assert_eq!(RendererApi::Vulkan.select(true), Ok(RendererApi::Vulkan));
}

#[test]
fn disabled_backend_is_refused() {
    assert_eq!(
        RendererApi::Vulkan.select(false),
        Err(DisabledBackend { api: RendererApi::Vulkan })
    );
}

#[test]
fn loans_leave_the_backend_held() {
    let config = "options";
    let props = (1.0f32, 2.0f32);
    let mut classic: Dispatcher = RuntimeQuadRenderer::Classic(Recorder::new("classic"));
    assert_eq!(classic.api(), RendererApi::Classic);
    classic.with_api(&config, &props, |api| api.clear((0, 0, 0)));
    assert_eq!(classic.api(), RendererApi::Classic);
    classic.with_loader(|mut loader| loader.clear());
    assert_eq!(classic.api(), RendererApi::Classic);
    {
        let _api = classic.borrow_api(&config, &props);
    }
    assert_eq!(classic.api(), RendererApi::Classic);
    {
        let _loader = classic.borrow_loader();
    }
    assert_eq!(classic.api(), RendererApi::Classic);
    assert_eq!(
        calls(&classic),
        ("classic", vec![String::from("clear (0, 0, 0)"), String::from("clear glyphs")])
    );

    let mut vulkan: Dispatcher = RuntimeQuadRenderer::Vulkan(Recorder::new("vulkan"));
    vulkan.with_api(&config, &props, |api| api.clear((0, 0, 0)));
    vulkan.with_loader(|mut loader| loader.clear());
    vulkan.resize((1.0, 1.0), 0.0, 0.0);
    vulkan.draw_rects(&config, &props, 1.0, Vec::new());
    assert_eq!(vulkan.api(), RendererApi::Vulkan);
}
