use vstd::prelude::*;

verus! {

/// The style block used for the dark theme.
pub const DARK_CSS: &'static str = "
        :root {
            color-scheme: dark;
        }
        body {
            background-color: #1a1a1a !important;
        }
        ";

/// The style block used for every other theme.
pub const LIGHT_CSS: &'static str = "
        :root {
            color-scheme: light;
        }
        ";

/// `p` occurs in `s` as a contiguous run of characters.
pub open spec fn contains(s: Seq<char>, p: Seq<char>) -> bool {
    exists|i: int| 0 <= i <= s.len() - p.len() && #[trigger] s.subrange(i, i + p.len()) == p
}

/// Whether a theme name selects the dark style.
pub open spec fn is_dark(theme: Seq<char>) -> bool {
    theme == "dark"@
}

/// The style block that a theme name selects.
pub open spec fn css_for(theme: Seq<char>) -> Seq<char> {
    if is_dark(theme) {
        DARK_CSS@
    } else {
        LIGHT_CSS@
    }
}

/// A request for the dark theme yields a style block that declares the dark
/// color scheme and overrides the page background.
pub proof fn dark_theme_declarations(theme: Seq<char>)
    requires
        is_dark(theme),
    ensures
        contains(css_for(theme), "color-scheme: dark"@),
        contains(css_for(theme), "background-color: #1a1a1a"@),
{
    reveal_strlit("
        :root {
            color-scheme: dark;
        }
        body {
            background-color: #1a1a1a !important;
        }
        ");
    reveal_strlit("color-scheme: dark");
    reveal_strlit("background-color: #1a1a1a");
    assert(DARK_CSS@.subrange(29, 29 + ("color-scheme: dark"@.len() as int)) =~= "color-scheme: dark"@);
    assert(DARK_CSS@.subrange(86, 86 + ("background-color: #1a1a1a"@.len() as int))
        =~= "background-color: #1a1a1a"@);
}

/// A request for any theme other than the dark one, the empty name included,
/// yields the light style block alone: it declares the light color scheme,
/// never the dark one, and leaves the page background untouched.
pub proof fn other_theme_declarations(theme: Seq<char>)
    requires
        !is_dark(theme),
    ensures
        css_for(theme) == LIGHT_CSS@,
        contains(css_for(theme), "color-scheme: light"@),
        !contains(css_for(theme), "background-color"@),
        !contains(css_for(theme), "color-scheme: dark"@),
{
    reveal_strlit("
        :root {
            color-scheme: light;
        }
        ");
    reveal_strlit("color-scheme: light");
    reveal_strlit("background-color");
    reveal_strlit("color-scheme: dark");
    assert(LIGHT_CSS@.subrange(29, 29 + ("color-scheme: light"@.len() as int)) =~= "color-scheme: light"@);
    // No character of the light block is a 'b', so no run of it can begin
    // the background declaration.
    assert forall|i: int| 0 <= i < LIGHT_CSS@.len() implies LIGHT_CSS@[i] != 'b' by {}
    assert forall|i: int|
        0 <= i <= LIGHT_CSS@.len() - "background-color"@.len() implies #[trigger] LIGHT_CSS@.subrange(
        i,
        i + "background-color"@.len(),
    ) != "background-color"@ by {
        assert(LIGHT_CSS@.subrange(i, i + "background-color"@.len())[0] == LIGHT_CSS@[i]);
    }
    assert forall|i: int|
        0 <= i <= LIGHT_CSS@.len() - "color-scheme: dark"@.len() implies #[trigger] LIGHT_CSS@.subrange(
        i,
        i + "color-scheme: dark"@.len(),
    ) != "color-scheme: dark"@ by {
        // "color" starts only at the declaration, whose value is "light".
        if i != 29 {
            assert(LIGHT_CSS@.subrange(i, i + "color-scheme: dark"@.len())[0] == LIGHT_CSS@[i]);
            assert(LIGHT_CSS@[i] != 'c' || LIGHT_CSS@[i + 1] != 'o' || LIGHT_CSS@[i + 2] != 'l');
            assert(LIGHT_CSS@.subrange(i, i + "color-scheme: dark"@.len())[1] == LIGHT_CSS@[i + 1]);
            assert(LIGHT_CSS@.subrange(i, i + "color-scheme: dark"@.len())[2] == LIGHT_CSS@[i + 2]);
        } else {
            assert(LIGHT_CSS@.subrange(i, i + "color-scheme: dark"@.len())[14] == LIGHT_CSS@[43]);
        }
    }
}

/// Whether `theme` names the dark theme; the comparison is exact.
pub fn is_dark_theme(theme: &str) -> (r: bool)
    ensures
        r == is_dark(theme@),
{
    String::from_str(theme) == String::from_str("dark")
}

/// The style block for `theme`: the dark one for exactly "dark", the light
/// one for every other name.
pub fn theme_css(theme: &str) -> (css: &'static str)
    ensures
        css@ == css_for(theme@),
        is_dark(theme@) ==> contains(css@, "color-scheme: dark"@) && contains(
            css@,
            "background-color: #1a1a1a"@,
        ),
        !is_dark(theme@) ==> contains(css@, "color-scheme: light"@) && !contains(
            css@,
            "background-color"@,
        ) && !contains(css@, "color-scheme: dark"@),
{
    proof {
        if is_dark(theme@) {
            dark_theme_declarations(theme@);
        } else {
            other_theme_declarations(theme@);
        }
    }
    if is_dark_theme(theme) {
        DARK_CSS
    } else {
        LIGHT_CSS
    }
}

/// What a theme request produces: the requested name and the style block
/// derived from it. The block is reported, not applied to any window.
pub struct ThemeInjection {
    pub theme: String,
    pub css: String,
}

impl ThemeInjection {
    /// The log line that records the request.
    pub fn request_line(&self) -> (line: String)
        ensures
            line@ == "Theme injection request: "@ + self.theme@,
    {
        String::from_str("Theme injection request: ").concat(self.theme.as_str())
    }

    /// The log line that records the style block.
    pub fn css_line(&self) -> (line: String)
        ensures
            line@ == "CSS to inject: "@ + self.css@,
    {
        String::from_str("CSS to inject: ").concat(self.css.as_str())
    }
}

/// Handles a theme request from the front end. It never fails: the result
/// carries the theme and the style block it selects, for the caller to log.
pub fn inject_theme(theme: String) -> (r: Result<ThemeInjection, String>)
    ensures
        r is Ok,
        r->Ok_0.theme@ == theme@,
        r->Ok_0.css@ == css_for(theme@),
{
    let css = String::from_str(theme_css(theme.as_str()));
    Ok(ThemeInjection { theme, css })
}

} // verus!
