use vstd::prelude::*;

use crate::listen::{ListenAction, ListenData};
use crate::options::{opt_view, ColorMode, RenderOptions};

verus! {

/// Width of the widget, in pixels.
pub const WIDTH: u32 = 1000;

/// Height of the widget, in pixels; the cover art is a square of this side.
pub const HEIGHT: u32 = 200;

/// Pixels kept free beside the text.
pub const TEXT_MARGIN: u32 = 24;

/// The pixel width left to the title and the artist: the canvas without the
/// square cover and the margin, or nothing when those take it all.
pub open spec fn text_budget_of(width: u32, height: u32) -> nat {
    if width >= height + TEXT_MARGIN {
        (width - height - TEXT_MARGIN) as nat
    } else {
        0
    }
}

/// The pixel width left to the title and the artist.
pub fn text_budget(width: u32, height: u32) -> (r: u64)
    ensures
        r as nat == text_budget_of(width, height),
{
    if width as u64 >= height as u64 + TEXT_MARGIN as u64 {
        width as u64 - height as u64 - TEXT_MARGIN as u64
    } else {
        0
    }
}

/// The font a line of the widget is drawn in.
#[derive(Clone, Debug)]
pub struct FontSpec {
    pub family: String,
    pub size: u32,
    pub weight: u32,
}

/// The font of the title: Inter, 36 pixels, bold.
pub fn title_font() -> (r: FontSpec)
    ensures
        r.family@ == "Inter"@,
        r.size == 36,
        r.weight == 700,
{
    FontSpec { family: String::from_str("Inter"), size: 36, weight: 700 }
}

/// The font of the artist: Inter, 28 pixels, regular.
pub fn artist_font() -> (r: FontSpec)
    ensures
        r.family@ == "Inter"@,
        r.size == 28,
        r.weight == 400,
{
    FontSpec { family: String::from_str("Inter"), size: 28, weight: 400 }
}

/// Why no widget could be drawn.
#[derive(Clone, Copy, Debug, PartialEq, Eq, Structural)]
pub enum PipelineError {
    /// The identity has neither a current nor a past listen.
    NoListenHistory,
}

/// The listen a finished resolution gives the widget, or the error that ends
/// the request; `None` while the resolution still has work to do.
pub fn resolved_listen(action: ListenAction) -> (r: Option<Result<(ListenData, bool), PipelineError>>)
    ensures
        match action {
            ListenAction::Found(l, live) => r == Some(Ok::<(ListenData, bool), PipelineError>((l, live))),
            ListenAction::NoHistory => r == Some(
                Err::<(ListenData, bool), PipelineError>(PipelineError::NoListenHistory),
            ),
            _ => r is None,
        },
{
    match action {
        ListenAction::Found(l, live) => Some(Ok((l, live))),
        ListenAction::NoHistory => Some(Err(PipelineError::NoListenHistory)),
        _ => None,
    }
}

/// What the widget's template is filled with.
#[derive(Clone, Debug)]
pub struct WidgetContext {
    pub width: u32,
    pub height: u32,
    pub title: String,
    pub artist: String,
    /// A data URI of the cover image, or empty without one.
    pub image: String,
    pub transparent: bool,
    pub listening: bool,
    pub color_mode: Option<ColorMode>,
    /// A valid hex color, when one was asked for.
    pub fill: Option<String>,
}

/// The data URI of a base64-encoded JPEG cover, or nothing without a cover.
pub open spec fn image_uri_of(art: Option<Seq<char>>) -> Seq<char> {
    match art {
        Some(a) => "data:image/jpeg;base64,"@ + a,
        None => Seq::<char>::empty(),
    }
}

/// Fills the widget's template from the fitted title and artist, the
/// encoded cover if any, the request's options and whether the listen is
/// current.
pub fn widget_context(
    title: String,
    artist: String,
    art: Option<&str>,
    options: &RenderOptions,
    listening: bool,
) -> (r: WidgetContext)
    ensures
        r.width == WIDTH,
        r.height == HEIGHT,
        r.title@ == title@,
        r.artist@ == artist@,
        r.image@ == image_uri_of(
            match art {
                Some(a) => Some(a@),
                None => None,
            },
        ),
        r.transparent == options.transparent,
        r.listening == listening,
        r.color_mode == options.color_mode,
        opt_view(r.fill) == opt_view(options.fill),
{
    let image = match art {
        Some(a) => String::from_str("data:image/jpeg;base64,").concat(a),
        None => String::new(),
    };
    let fill = match &options.fill {
        Some(f) => Some(f.clone()),
        None => None,
    };
    WidgetContext {
        width: WIDTH,
        height: HEIGHT,
        title,
        artist,
        image,
        transparent: options.transparent,
        listening,
        color_mode: options.color_mode,
        fill,
    }
}

} // verus!
