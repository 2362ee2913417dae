//! Theme selection for the upstream renderer, and the settling of a render.
//!
//! The upstream renderer is CPU-bound and synchronous, and it may panic on
//! some diagrams that parse. The server therefore calls it on a blocking
//! task under a deadline, with the theme that `pick_theme` selects, and
//! hands what came back to `settle_render`: a panic surfaces there as a
//! failed task.

use mermaid_rs_renderer::Theme;
use vstd::prelude::*;
use vstd::string::StringSliceAdditionalSpecFns;

use crate::text::bytes_equal;

verus! {

#[verifier::external_type_specification]
#[verifier::external_body]
pub struct ExTheme(mermaid_rs_renderer::Theme);

/// The two presets of the upstream renderer.
#[derive(Debug, Clone, Copy, PartialEq, Eq)]
pub enum ThemeChoice {
    /// The classic Mermaid look (`Theme::mermaid_default`).
    MermaidDefault,
    /// The modern look (`Theme::modern`).
    Modern,
}

/// ASCII letters lowered, every other byte kept (`str::to_ascii_lowercase`).
pub open spec fn ascii_lowercase(b: Seq<u8>) -> Seq<u8> {
    Seq::new(b.len(), |i: int| if 65 <= b[i] <= 90 { (b[i] + 32) as u8 } else { b[i] })
}

/// The lowercase names that select the classic look: `default`, `neutral`
/// and `base`.
pub open spec fn is_classic_name(b: Seq<u8>) -> bool {
    ||| b == seq![100u8, 101, 102, 97, 117, 108, 116]
    ||| b == seq![110u8, 101, 117, 116, 114, 97, 108]
    ||| b == seq![98u8, 97, 115, 101]
}

/// The preset that a theme name selects, compared without regard to ASCII
/// case; no name, or any other name, selects the modern look.
pub open spec fn theme_choice_of(name: Option<Seq<u8>>) -> ThemeChoice {
    match name {
        Some(n) => if is_classic_name(ascii_lowercase(n)) {
            ThemeChoice::MermaidDefault
        } else {
            ThemeChoice::Modern
        },
        None => ThemeChoice::Modern,
    }
}

fn lowercase_bytes(b: &[u8]) -> (out: Vec<u8>)
    ensures
        out@ == ascii_lowercase(b@),
{
    let mut out: Vec<u8> = Vec::new();
    let mut i: usize = 0;
    while i < b.len()
        invariant
            i <= b@.len(),
            out@ == ascii_lowercase(b@).take(i as int),
        decreases b@.len() - i,
    {
        let c = b[i];
        if 65 <= c && c <= 90 {
            out.push(c + 32);
        } else {
            out.push(c);
        }
        i += 1;
        assert(out@ =~= ascii_lowercase(b@).take(i as int));
    }
    assert(ascii_lowercase(b@).take(b@.len() as int) =~= ascii_lowercase(b@));
    out
}

/// The preset that a user-supplied theme name selects: `default`,
/// `neutral` and `base`, in any ASCII case, select the classic look;
/// everything else, and no name, the modern one.
pub fn theme_choice(name: Option<&str>) -> (res: ThemeChoice)
    ensures
        res == theme_choice_of(
            match name {
                Some(n) => Some(n.spec_bytes()),
                None => None,
            },
        ),
{
    match name {
        None => ThemeChoice::Modern,
        Some(n) => {
            let lower = lowercase_bytes(n.as_bytes());
            let default_word: [u8; 7] = [100, 101, 102, 97, 117, 108, 116];
            let neutral_word: [u8; 7] = [110, 101, 117, 116, 114, 97, 108];
            let base_word: [u8; 4] = [98, 97, 115, 101];
            assert(default_word@ =~= seq![100u8, 101, 102, 97, 117, 108, 116]);
            assert(neutral_word@ =~= seq![110u8, 101, 117, 116, 114, 97, 108]);
            assert(base_word@ =~= seq![98u8, 97, 115, 101]);
            if bytes_equal(lower.as_slice(), default_word.as_slice()) || bytes_equal(
                lower.as_slice(),
                neutral_word.as_slice(),
            ) || bytes_equal(lower.as_slice(), base_word.as_slice()) {
                ThemeChoice::MermaidDefault
            } else {
                ThemeChoice::Modern
            }
        },
    }
}

/// The theme that `Theme::modern()` builds. The constructor takes no input
/// and fills every field with a constant, so each call gives this one value.
pub closed spec fn modern_theme_value() -> Theme {
    vstd::pervasive::arbitrary()
}

/// Whether a theme is another value than the modern theme.
pub open spec fn differs_from_modern(t: Theme) -> bool {
    t != modern_theme_value()
}

/// The theme that `Theme::mermaid_default()` builds: one fixed value, a
/// different one from the modern theme (the two set different colours).
pub closed spec fn classic_theme_value() -> Theme {
    choose|t: Theme| #[trigger] differs_from_modern(t)
}

/// The upstream theme of a preset.
pub open spec fn preset_theme(choice: ThemeChoice) -> Theme {
    match choice {
        ThemeChoice::MermaidDefault => classic_theme_value(),
        ThemeChoice::Modern => modern_theme_value(),
    }
}

/// Calls `Theme::modern()` of the upstream renderer, which fills every field
/// with a constant: the result is the one value `modern_theme_value`.
#[verifier::external_body]
fn modern_theme() -> (res: Theme)
    ensures
        res == modern_theme_value(),
{
    Theme::modern()
}

/// Calls `Theme::mermaid_default()` of the upstream renderer, which fills
/// every field with a constant: the result is the one value
/// `classic_theme_value`.
#[verifier::external_body]
fn classic_theme() -> (res: Theme)
    ensures
        res == classic_theme_value(),
{
    Theme::mermaid_default()
}

/// Maps a user-supplied theme name to an upstream `Theme`: the classic
/// Mermaid theme for `default`, `neutral` and `base` in any ASCII case, the
/// modern theme for every other name and for no name, rather than failing.
pub fn pick_theme(name: Option<&str>) -> (res: Theme)
    ensures
        res == preset_theme(
            theme_choice_of(
                match name {
                    Some(n) => Some(n.spec_bytes()),
                    None => None,
                },
            ),
        ),
{
    match theme_choice(name) {
        ThemeChoice::MermaidDefault => classic_theme(),
        ThemeChoice::Modern => modern_theme(),
    }
}

/// Only `default`, `neutral` and `base`, in any ASCII case, select the
/// classic theme: a name that selects it is one of those three words once
/// its ASCII letters are lowered, and every such name selects it.
pub proof fn law_classic_theme_only_for_aliases(n: Seq<u8>)
    ensures
        (theme_choice_of(Some(n)) == ThemeChoice::MermaidDefault) == (ascii_lowercase(n)
            == "default".spec_bytes() || ascii_lowercase(n) == "neutral".spec_bytes()
            || ascii_lowercase(n) == "base".spec_bytes()),
        theme_choice_of(None) == ThemeChoice::Modern,
{
    reveal_strlit("default");
    reveal_strlit("neutral");
    reveal_strlit("base");
    vstd::utf8::is_ascii_chars_encode_utf8("default"@);
    vstd::utf8::is_ascii_chars_encode_utf8("neutral"@);
    vstd::utf8::is_ascii_chars_encode_utf8("base"@);
    assert("default".spec_bytes() =~= seq![100u8, 101, 102, 97, 117, 108, 116]);
    assert("neutral".spec_bytes() =~= seq![110u8, 101, 117, 116, 114, 97, 108]);
    assert("base".spec_bytes() =~= seq![98u8, 97, 115, 101]);
}

/// Why a render produced no SVG.
#[derive(Debug, PartialEq, Eq)]
pub enum RenderError {
    /// The renderer panicked or its task failed; the text describes it.
    Join(String),
    /// The render exceeded the configured timeout.
    Timeout,
    /// The upstream parser, layout or renderer returned this error text.
    Upstream(String),
}

/// Settles a render from what the blocking task gave back: `None` when
/// the deadline passed first, `Some(Err(..))` when the task failed, and
/// otherwise the renderer's own result.
pub fn settle_render(outcome: Option<Result<Result<String, String>, String>>) -> (res: Result<
    String,
    RenderError,
>)
    ensures
        match outcome {
            None => res == Err::<String, RenderError>(RenderError::Timeout),
            Some(Err(j)) => res == Err::<String, RenderError>(RenderError::Join(j)),
            Some(Ok(Err(u))) => res == Err::<String, RenderError>(RenderError::Upstream(u)),
            Some(Ok(Ok(svg))) => res == Ok::<String, RenderError>(svg),
        },
{
    match outcome {
        None => Err(RenderError::Timeout),
        Some(Err(j)) => Err(RenderError::Join(j)),
        Some(Ok(Err(u))) => Err(RenderError::Upstream(u)),
        Some(Ok(Ok(svg))) => Ok(svg),
    }
}

/// Theme names are compared without regard to ASCII case: names that
/// agree once lowered select the same preset.
pub proof fn law_theme_name_case_insensitive(a: Seq<u8>, b: Seq<u8>)
    requires
        ascii_lowercase(a) == ascii_lowercase(b),
    ensures
        theme_choice_of(Some(a)) == theme_choice_of(Some(b)),
{
}

/// Lowering a name a second time changes nothing, so a name and its
/// lowercase form select the same preset.
pub proof fn law_lowercase_name_selects_same(a: Seq<u8>)
    ensures
        ascii_lowercase(ascii_lowercase(a)) == ascii_lowercase(a),
        theme_choice_of(Some(ascii_lowercase(a))) == theme_choice_of(Some(a)),
{
    assert(ascii_lowercase(ascii_lowercase(a)) =~= ascii_lowercase(a));
}

} // verus!
