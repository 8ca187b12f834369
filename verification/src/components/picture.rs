//! Typed `Picture` primitive — a responsive image with an AVIF → WebP →
//! JPEG fallback chain, required alt text and intrinsic dimensions.

use vstd::prelude::*;
use crate::text::{attr, decimal, push_attr, push_decimal, push_str};

verus! {

/// Loading strategy.
#[derive(Debug, Clone, Copy, PartialEq, Eq, Structural)]
pub enum PictureLoading {
    /// `loading="lazy"` — below the fold.
    Lazy,
    /// `loading="eager"` — the above-the-fold LCP image.
    Eager,
}

/// The `loading` value of a strategy.
pub open spec fn loading_str(l: PictureLoading) -> &'static str {
    match l {
        PictureLoading::Lazy => "lazy",
        PictureLoading::Eager => "eager",
    }
}

impl PictureLoading {
    fn as_str(self) -> (r: &'static str)
        ensures
            r == loading_str(self),
    {
        match self {
            PictureLoading::Lazy => "lazy",
            PictureLoading::Eager => "eager",
        }
    }
}

/// Resource priority hint.
#[derive(Debug, Clone, Copy, PartialEq, Eq, Structural)]
pub enum PicturePriority {
    /// Browser default — no `fetchpriority` attribute.
    Auto,
    /// `fetchpriority="high"`.
    High,
    /// `fetchpriority="low"`.
    Low,
}

/// The `fetchpriority` value of a hint; `None` omits the attribute.
pub open spec fn priority_attr(p: PicturePriority) -> Option<&'static str> {
    match p {
        PicturePriority::Auto => None,
        PicturePriority::High => Some("high"),
        PicturePriority::Low => Some("low"),
    }
}

impl PicturePriority {
    fn as_attr(self) -> (r: Option<&'static str>)
        ensures
            r == priority_attr(self),
    {
        match self {
            PicturePriority::Auto => None,
            PicturePriority::High => Some("high"),
            PicturePriority::Low => Some("low"),
        }
    }
}

/// `object-fit` selection.
#[derive(Debug, Clone, Copy, PartialEq, Eq, Structural)]
pub enum PictureFit {
    /// No modifier.
    Default,
    /// Fill the box, crop the overflow.
    Cover,
    /// Letterbox, no crop.
    Contain,
}

/// The `<img>` class: `loom-picture`, plus the fit modifier when set.
pub open spec fn picture_class(fit: PictureFit) -> Seq<char> {
    match fit {
        PictureFit::Default => "loom-picture"@,
        PictureFit::Cover => "loom-picture "@ + "loom-picture--cover"@,
        PictureFit::Contain => "loom-picture "@ + "loom-picture--contain"@,
    }
}

impl PictureFit {
    fn modifier_class(self) -> (r: Option<&'static str>)
        ensures
            r == match self {
                PictureFit::Default => None,
                PictureFit::Cover => Some("loom-picture--cover"),
                PictureFit::Contain => Some("loom-picture--contain"),
            },
    {
        match self {
            PictureFit::Default => None,
            PictureFit::Cover => Some("loom-picture--cover"),
            PictureFit::Contain => Some("loom-picture--contain"),
        }
    }
}

fn compose_class(fit: PictureFit) -> (r: String)
    ensures
        r@ == picture_class(fit),
{
    let mut s = String::new();
    push_str(&mut s, "loom-picture");
    if let Some(m) = fit.modifier_class() {
        push_str(&mut s, " ");
        push_str(&mut s, m);
    }
    proof {
        reveal_strlit("loom-picture");
        reveal_strlit("loom-picture ");
        reveal_strlit(" ");
    }
    assert(s@ =~= picture_class(fit));
    s
}

/// Responsive image. `src_stem` is a path under `/assets/` without an
/// extension; the caller validates it (no `..`, no scheme, no leading
/// slash).
pub struct Picture<'a> {
    /// Asset path stem.
    pub src_stem: &'a str,
    /// Text alternative; `""` only for decorative images.
    pub alt: &'a str,
    /// Intrinsic width in CSS pixels.
    pub width: u32,
    /// Intrinsic height in CSS pixels.
    pub height: u32,
    /// Loading strategy.
    pub loading: PictureLoading,
    /// Resource priority hint.
    pub priority: PicturePriority,
    /// `object-fit` mode.
    pub fit: PictureFit,
}

impl<'a> Picture<'a> {
    /// `/assets/{stem}{ext}`.
    pub open spec fn asset(self, ext: Seq<char>) -> Seq<char> {
        "/assets/"@ + self.src_stem@ + ext
    }

    /// The markup: two `<source>`s and the JPEG `<img>`.
    pub open spec fn html(self) -> Seq<char> {
        "<picture>"@ + "<source"@ + attr("srcset"@, self.asset(".avif"@)) + " type=\"image/avif\">"@
            + "<source"@ + attr("srcset"@, self.asset(".webp"@)) + " type=\"image/webp\">"@ + "<img"@
            + attr("src"@, self.asset(".jpg"@)) + attr("alt"@, self.alt@) + attr(
            "width"@,
            decimal(self.width as nat),
        ) + attr("height"@, decimal(self.height as nat)) + attr(
            "loading"@,
            loading_str(self.loading)@,
        ) + " decoding=\"async\""@ + match priority_attr(self.priority) {
            Some(p) => attr("fetchpriority"@, p@),
            None => Seq::empty(),
        } + attr("class"@, picture_class(self.fit)) + ">"@ + "</picture>"@
    }

    fn asset_url(&self, ext: &str) -> (r: String)
        ensures
            r@ == self.asset(ext@),
    {
        let mut s = String::new();
        push_str(&mut s, "/assets/");
        push_str(&mut s, self.src_stem);
        push_str(&mut s, ext);
        assert(s@ =~= self.asset(ext@));
        s
    }

    /// Render the `<picture>` element.
    pub fn render(&self) -> (r: String)
        ensures
            r@ == self.html(),
    {
        let avif = self.asset_url(".avif");
        let webp = self.asset_url(".webp");
        let jpg = self.asset_url(".jpg");
        let class = compose_class(self.fit);
        let mut width = String::new();
        push_decimal(&mut width, self.width as u64);
        let mut height = String::new();
        push_decimal(&mut height, self.height as u64);
        let mut out = String::new();
        push_str(&mut out, "<picture>");
        push_str(&mut out, "<source");
        push_attr(&mut out, "srcset", avif.as_str());
        push_str(&mut out, " type=\"image/avif\">");
        push_str(&mut out, "<source");
        push_attr(&mut out, "srcset", webp.as_str());
        push_str(&mut out, " type=\"image/webp\">");
        push_str(&mut out, "<img");
        push_attr(&mut out, "src", jpg.as_str());
        push_attr(&mut out, "alt", self.alt);
        push_attr(&mut out, "width", width.as_str());
        push_attr(&mut out, "height", height.as_str());
        push_attr(&mut out, "loading", self.loading.as_str());
        push_str(&mut out, " decoding=\"async\"");
        let ghost a = out@;
        if let Some(p) = self.priority.as_attr() {
            push_attr(&mut out, "fetchpriority", p);
        }
        let ghost b = out@;
        push_attr(&mut out, "class", class.as_str());
        push_str(&mut out, ">");
        push_str(&mut out, "</picture>");
        assert(out@ =~= self.html());
        out
    }
}

} // verus!
