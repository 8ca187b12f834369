//! Typed `Composer` primitive — the feed-top compose bar: an avatar slot,
//! a one-line prompt link and up to three typed action links, as a shell
//! that works without script.

use vstd::prelude::*;
use crate::text::{
    attr, chars_of, contains_char, contains_seq, contains_str, html_escape, push_attr, push_escaped,
    push_str, starts_with, starts_with_str,
};

verus! {

/// Visible density.
#[derive(Debug, Clone, Copy, PartialEq, Eq, Structural)]
pub enum ComposerSize {
    /// Tight padding, nested in a header row.
    Compact,
    /// Generous padding, the feed-top bar.
    Comfortable,
}

/// The `data-size` value of a density.
pub open spec fn composer_size_attr(s: ComposerSize) -> &'static str {
    match s {
        ComposerSize::Compact => "compact",
        ComposerSize::Comfortable => "comfortable",
    }
}

impl ComposerSize {
    fn data_attr(self) -> (r: &'static str)
        ensures
            r == composer_size_attr(self),
    {
        match self {
            ComposerSize::Compact => "compact",
            ComposerSize::Comfortable => "comfortable",
        }
    }
}

/// Avatar slot.
#[derive(Debug, Clone, PartialEq, Eq)]
pub enum ComposerAvatar<'a> {
    /// No avatar — the prompt sits flush left.
    Absent,
    /// One to three letters in a circle.
    Initials(&'a str),
    /// Image URL (same-origin path or `https://`).
    Image {
        /// Image asset URL.
        src: &'a str,
        /// Alternative text.
        alt: &'a str,
    },
}

/// One action link: a closed set of well-known actions.
#[derive(Debug, Clone, Copy, PartialEq, Eq, Structural)]
pub enum PromptAction {
    /// "Upload clip".
    UploadClip,
    /// "Challenge".
    ChallengeOpponent,
    /// "Live".
    GoLive,
    /// "Photo".
    PhotoOnly,
}

/// Visible label of an action.
pub open spec fn action_label(a: PromptAction) -> &'static str {
    match a {
        PromptAction::UploadClip => "Upload clip",
        PromptAction::ChallengeOpponent => "Challenge",
        PromptAction::GoLive => "Live",
        PromptAction::PhotoOnly => "Photo",
    }
}

/// Backend key (`data-backend`) of an action.
pub open spec fn action_backend(a: PromptAction) -> &'static str {
    match a {
        PromptAction::UploadClip => "post-skill",
        PromptAction::ChallengeOpponent => "challenge-create",
        PromptAction::GoLive => "live-start",
        PromptAction::PhotoOnly => "post-photo",
    }
}

/// Inline 24×24 glyph of an action (path-only SVG).
pub open spec fn action_icon(a: PromptAction) -> &'static str {
    match a {
        PromptAction::UploadClip => "<svg viewBox=\"0 0 24 24\" width=\"24\" height=\"24\" fill=\"none\" stroke=\"currentColor\" stroke-width=\"2\" stroke-linecap=\"round\" stroke-linejoin=\"round\" aria-hidden=\"true\"><path d=\"M21 15v4a2 2 0 0 1-2 2H5a2 2 0 0 1-2-2v-4\"/><polyline points=\"17 8 12 3 7 8\"/><line x1=\"12\" y1=\"3\" x2=\"12\" y2=\"15\"/></svg>",
        PromptAction::ChallengeOpponent => "<svg viewBox=\"0 0 24 24\" width=\"24\" height=\"24\" fill=\"none\" stroke=\"currentColor\" stroke-width=\"2\" stroke-linecap=\"round\" stroke-linejoin=\"round\" aria-hidden=\"true\"><polygon points=\"12 2 15 8.5 22 9.3 17 14.1 18.2 21 12 17.8 5.8 21 7 14.1 2 9.3 9 8.5 12 2\"/></svg>",
        PromptAction::GoLive => "<svg viewBox=\"0 0 24 24\" width=\"24\" height=\"24\" fill=\"none\" stroke=\"currentColor\" stroke-width=\"2\" stroke-linecap=\"round\" stroke-linejoin=\"round\" aria-hidden=\"true\"><circle cx=\"12\" cy=\"12\" r=\"3\"/><path d=\"M19.07 4.93a10 10 0 0 1 0 14.14M4.93 19.07a10 10 0 0 1 0-14.14\"/></svg>",
        PromptAction::PhotoOnly => "<svg viewBox=\"0 0 24 24\" width=\"24\" height=\"24\" fill=\"none\" stroke=\"currentColor\" stroke-width=\"2\" stroke-linecap=\"round\" stroke-linejoin=\"round\" aria-hidden=\"true\"><path d=\"M23 19a2 2 0 0 1-2 2H3a2 2 0 0 1-2-2V8a2 2 0 0 1 2-2h4l2-3h6l2 3h4a2 2 0 0 1 2 2z\"/><circle cx=\"12\" cy=\"13\" r=\"4\"/></svg>",
    }
}

impl PromptAction {
    /// Visible label of the action.
    pub fn label(self) -> (r: &'static str)
        ensures
            r == action_label(self),
    {
        match self {
            PromptAction::UploadClip => "Upload clip",
            PromptAction::ChallengeOpponent => "Challenge",
            PromptAction::GoLive => "Live",
            PromptAction::PhotoOnly => "Photo",
        }
    }

    /// Backend key (`data-backend`) of the action.
    pub fn backend(self) -> (r: &'static str)
        ensures
            r == action_backend(self),
    {
        match self {
            PromptAction::UploadClip => "post-skill",
            PromptAction::ChallengeOpponent => "challenge-create",
            PromptAction::GoLive => "live-start",
            PromptAction::PhotoOnly => "post-photo",
        }
    }

    /// Inline glyph of the action.
    pub fn icon_svg(self) -> (r: &'static str)
        ensures
            r == action_icon(self),
    {
        match self {
            PromptAction::UploadClip => "<svg viewBox=\"0 0 24 24\" width=\"24\" height=\"24\" fill=\"none\" stroke=\"currentColor\" stroke-width=\"2\" stroke-linecap=\"round\" stroke-linejoin=\"round\" aria-hidden=\"true\"><path d=\"M21 15v4a2 2 0 0 1-2 2H5a2 2 0 0 1-2-2v-4\"/><polyline points=\"17 8 12 3 7 8\"/><line x1=\"12\" y1=\"3\" x2=\"12\" y2=\"15\"/></svg>",
            PromptAction::ChallengeOpponent => "<svg viewBox=\"0 0 24 24\" width=\"24\" height=\"24\" fill=\"none\" stroke=\"currentColor\" stroke-width=\"2\" stroke-linecap=\"round\" stroke-linejoin=\"round\" aria-hidden=\"true\"><polygon points=\"12 2 15 8.5 22 9.3 17 14.1 18.2 21 12 17.8 5.8 21 7 14.1 2 9.3 9 8.5 12 2\"/></svg>",
            PromptAction::GoLive => "<svg viewBox=\"0 0 24 24\" width=\"24\" height=\"24\" fill=\"none\" stroke=\"currentColor\" stroke-width=\"2\" stroke-linecap=\"round\" stroke-linejoin=\"round\" aria-hidden=\"true\"><circle cx=\"12\" cy=\"12\" r=\"3\"/><path d=\"M19.07 4.93a10 10 0 0 1 0 14.14M4.93 19.07a10 10 0 0 1 0-14.14\"/></svg>",
            PromptAction::PhotoOnly => "<svg viewBox=\"0 0 24 24\" width=\"24\" height=\"24\" fill=\"none\" stroke=\"currentColor\" stroke-width=\"2\" stroke-linecap=\"round\" stroke-linejoin=\"round\" aria-hidden=\"true\"><path d=\"M23 19a2 2 0 0 1-2 2H3a2 2 0 0 1-2-2V8a2 2 0 0 1 2-2h4l2-3h6l2 3h4a2 2 0 0 1 2 2z\"/><circle cx=\"12\" cy=\"13\" r=\"4\"/></svg>",
        }
    }
}

/// A URL is safe to interpolate when it is `https://` without line
/// breaks, or a same-origin path: starting with a single `/`, without
/// `://` and without control characters.
pub open spec fn safe_url(p: Seq<char>) -> bool {
    if p.len() == 0 {
        false
    } else if starts_with(p, "https://"@) {
        !p.contains('\n') && !p.contains('\r')
    } else if p[0] != '/' {
        false
    } else if starts_with(p, "//"@) {
        false
    } else if contains_seq(p, "://"@) {
        false
    } else {
        forall|i: int| 0 <= i < p.len() ==> (p[i] as u32) >= 0x20
    }
}

/// Accept only same-origin paths (`/foo`) or `https://` URLs.
pub fn is_safe_url(p: &str) -> (r: bool)
    ensures
        r == safe_url(p@),
{
    if p.is_empty() {
        return false;
    }
    if starts_with_str(p, "https://") {
        return !contains_char(p, '\n') && !contains_char(p, '\r');
    }
    let v = chars_of(p);
    if v[0] != '/' {
        return false;
    }
    if starts_with_str(p, "//") {
        return false;
    }
    if contains_str(p, "://") {
        return false;
    }
    let mut i: usize = 0;
    while i < v.len()
        invariant
            i <= v@.len(),
            v@ == p@,
            p@.len() > 0,
            !starts_with(p@, "https://"@),
            p@[0] == '/',
            !starts_with(p@, "//"@),
            !contains_seq(p@, "://"@),
            forall|k: int| 0 <= k < i ==> (v@[k] as u32) >= 0x20,
        decreases v.len() - i,
    {
        if (v[i] as u32) < 0x20 {
            assert(p@[i as int] == v@[i as int]);
            assert(!((p@[i as int] as u32) >= 0x20));
            return false;
        }
        i = i + 1;
    }
    true
}

/// Feed-top composer. An unsafe `submit_endpoint` is replaced by
/// `#invalid-endpoint` and flagged with `data-invalid="true"`.
pub struct Composer<'a> {
    /// Visible call-to-action text.
    pub prompt: &'a str,
    /// Where the prompt link navigates; must pass [`is_safe_url`].
    pub submit_endpoint: &'a str,
    /// Typed action links; only the first three are shown.
    pub actions: Vec<PromptAction>,
    /// Avatar slot.
    pub avatar: ComposerAvatar<'a>,
    /// Density.
    pub size: ComposerSize,
}

/// The markup of the avatar slot.
pub open spec fn avatar_html(avatar: ComposerAvatar) -> Seq<char> {
    match avatar {
        ComposerAvatar::Absent => Seq::empty(),
        ComposerAvatar::Initials(letters) => "<div class=\"loom-composer__avatar\" data-avatar=\"initials\" aria-hidden=\"true\">"@
            + html_escape(letters@) + "</div>"@,
        ComposerAvatar::Image { src, alt } => if safe_url(src@) {
            "<img class=\"loom-composer__avatar\" data-avatar=\"image\""@ + attr("src"@, src@) + attr(
                "alt"@,
                alt@,
            ) + " width=\"40\" height=\"40\" loading=\"lazy\" decoding=\"async\">"@
        } else {
            "<div class=\"loom-composer__avatar\" data-avatar=\"invalid-image\" aria-hidden=\"true\">?</div>"@
        },
    }
}

/// The markup of one action link pointing at `endpoint`.
pub open spec fn action_html(a: PromptAction, endpoint: Seq<char>) -> Seq<char> {
    "<a class=\"loom-composer__action\""@ + attr("href"@, endpoint) + attr(
        "data-backend"@,
        action_backend(a)@,
    ) + attr("aria-label"@, action_label(a)@) + ">"@ + "<span class=\"loom-composer__action-icon\">"@
        + action_icon(a)@ + "</span>"@ + "<span class=\"loom-composer__action-label\">"@
        + html_escape(action_label(a)@) + "</span>"@ + "</a>"@
}

/// The markup of a run of action links, in order.
pub open spec fn actions_html(actions: Seq<PromptAction>, endpoint: Seq<char>) -> Seq<char>
    decreases actions.len(),
{
    if actions.len() == 0 {
        Seq::empty()
    } else {
        actions_html(actions.drop_last(), endpoint) + action_html(actions.last(), endpoint)
    }
}

/// At most the first three actions.
pub open spec fn shown_actions(actions: Seq<PromptAction>) -> Seq<PromptAction> {
    if actions.len() <= 3 {
        actions
    } else {
        actions.take(3)
    }
}

fn push_avatar(out: &mut String, avatar: &ComposerAvatar)
    ensures
        final(out)@ == old(out)@ + avatar_html(*avatar),
{
    let ghost start = out@;
    match avatar {
        ComposerAvatar::Absent => {},
        ComposerAvatar::Initials(letters) => {
            push_str(
                out,
                "<div class=\"loom-composer__avatar\" data-avatar=\"initials\" aria-hidden=\"true\">",
            );
            push_escaped(out, letters);
            push_str(out, "</div>");
        },
        ComposerAvatar::Image { src, alt } => {
            if is_safe_url(src) {
                push_str(out, "<img class=\"loom-composer__avatar\" data-avatar=\"image\"");
                push_attr(out, "src", src);
                push_attr(out, "alt", alt);
                push_str(out, " width=\"40\" height=\"40\" loading=\"lazy\" decoding=\"async\">");
            } else {
                push_str(
                    out,
                    "<div class=\"loom-composer__avatar\" data-avatar=\"invalid-image\" aria-hidden=\"true\">?</div>",
                );
            }
        },
    }
    assert(out@ =~= start + avatar_html(*avatar));
}

fn push_action(out: &mut String, a: PromptAction, endpoint: &str)
    ensures
        final(out)@ == old(out)@ + action_html(a, endpoint@),
{
    let ghost start = out@;
    push_str(out, "<a class=\"loom-composer__action\"");
    push_attr(out, "href", endpoint);
    push_attr(out, "data-backend", a.backend());
    push_attr(out, "aria-label", a.label());
    push_str(out, ">");
    push_str(out, "<span class=\"loom-composer__action-icon\">");
    push_str(out, a.icon_svg());
    push_str(out, "</span>");
    push_str(out, "<span class=\"loom-composer__action-label\">");
    push_escaped(out, a.label());
    push_str(out, "</span>");
    push_str(out, "</a>");
    assert(out@ =~= start + action_html(a, endpoint@));
}

impl<'a> Composer<'a> {
    /// The endpoint the links use: the configured one when safe.
    pub open spec fn endpoint(self) -> Seq<char> {
        if safe_url(self.submit_endpoint@) {
            self.submit_endpoint@
        } else {
            "#invalid-endpoint"@
        }
    }

    /// The markup of the composer.
    pub open spec fn html(self) -> Seq<char> {
        let shown = shown_actions(self.actions@);
        "<section class=\"loom-composer\" data-loom-composer"@ + attr(
            "data-size"@,
            composer_size_attr(self.size)@,
        ) + (if safe_url(self.submit_endpoint@) {
            Seq::empty()
        } else {
            attr("data-invalid"@, "true"@)
        }) + " aria-label=\"Compose\">"@ + "<div class=\"loom-composer__row\">"@ + avatar_html(
            self.avatar,
        ) + "<a class=\"loom-composer__prompt\""@ + attr("href"@, self.endpoint())
            + " data-backend=\"post-skill\">"@ + html_escape(self.prompt@) + "</a>"@ + "</div>"@ + (
        if shown.len() == 0 {
            Seq::empty()
        } else {
            "<nav class=\"loom-composer__actions\" aria-label=\"Quick actions\">"@ + actions_html(
                shown,
                self.endpoint(),
            ) + "</nav>"@
        }) + "</section>"@
    }

    /// Render the composer card; every text slot is escaped.
    pub fn render(&self) -> (r: String)
        ensures
            r@ == self.html(),
    {
        let endpoint_safe = is_safe_url(self.submit_endpoint);
        let endpoint = if endpoint_safe {
            self.submit_endpoint
        } else {
            "#invalid-endpoint"
        };
        let n: usize = if self.actions.len() < 3 {
            self.actions.len()
        } else {
            3
        };
        let ghost shown = shown_actions(self.actions@);
        assert(shown =~= self.actions@.take(n as int));
        let mut out = String::new();
        push_str(&mut out, "<section class=\"loom-composer\" data-loom-composer");
        push_attr(&mut out, "data-size", self.size.data_attr());
        if !endpoint_safe {
            push_attr(&mut out, "data-invalid", "true");
        }
        push_str(&mut out, " aria-label=\"Compose\">");
        push_str(&mut out, "<div class=\"loom-composer__row\">");
        push_avatar(&mut out, &self.avatar);
        push_str(&mut out, "<a class=\"loom-composer__prompt\"");
        push_attr(&mut out, "href", endpoint);
        push_str(&mut out, " data-backend=\"post-skill\">");
        push_escaped(&mut out, self.prompt);
        push_str(&mut out, "</a>");
        push_str(&mut out, "</div>");
        let ghost before_nav = out@;
        if n != 0 {
            push_str(&mut out, "<nav class=\"loom-composer__actions\" aria-label=\"Quick actions\">");
            let ghost before_actions = out@;
            let mut i: usize = 0;
            while i < n
                invariant
                    i <= n <= self.actions@.len(),
                    n <= 3,
                    out@ == before_actions + actions_html(self.actions@.take(i as int), endpoint@),
                decreases n - i,
            {
                push_action(&mut out, self.actions[i], endpoint);
                assert(self.actions@.take(i + 1).drop_last() =~= self.actions@.take(i as int));
                i = i + 1;
            }
            push_str(&mut out, "</nav>");
        }
        push_str(&mut out, "</section>");
        assert(out@ =~= self.html());
        out
    }
}

} // verus!
