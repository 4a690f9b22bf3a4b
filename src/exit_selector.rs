use vstd::prelude::*;
use vstd::string::*;

use crate::color::{black, disable_color, disabled_look, hsl_rgb, hsl_to_rgb, Color};
use crate::text::{all_ascii, char_from_u32, is_ascii_upper_of, is_numeric, numeric_char, string_from_chars, upper_of, uppercase};

verus! {

/// How much a row or badge that cannot be chosen scales its colors, in percent.
pub const EXIT_DISABLE_MULTIPLY: u32 = 100;

/// How much a row or badge that cannot be chosen raises its opacity, in percent.
pub const EXIT_DISABLE_OPACITY: u32 = 50;

/// Loads above this, in thousandths, are shown as this one.
pub const LOAD_CAP_PERMILLE: u32 = 1300;

/// The distance from a letter to its regional indicator symbol.
pub const REGIONAL_INDICATOR_OFFSET: u32 = 127397;

/// A flag glyph for a character: its regional indicator symbol where there is a character
/// at that distance, else the character itself.
pub open spec fn flag_char(c: char, f: char) -> bool {
    if c as u32 + REGIONAL_INDICATOR_OFFSET <= 0x10FFFF {
        f as u32 == c as u32 + REGIONAL_INDICATOR_OFFSET
    } else {
        f == c
    }
}

/// Whether `flag` is the flag of the country code `code`, taken as it stands: one glyph per
/// character of a two-character code, else a fixed placeholder.
pub open spec fn is_flag_of(code: Seq<char>, flag: Seq<char>) -> bool {
    if code.len() != 2 {
        flag == "Invalid country code"@
    } else {
        &&& flag.len() == 2
        &&& flag_char(code[0], flag[0])
        &&& flag_char(code[1], flag[1])
    }
}

/// The numeric characters of a string, in order: every character that `char::is_numeric`
/// accepts (ASCII digits, and numeric characters of other scripts such as '٣' or '½').
pub open spec fn digits_of(s: Seq<char>) -> Seq<char> {
    s.filter(|c: char| numeric_char(c))
}

/// The label of a server's row: its flag, upper-case country code and city, and when every
/// server is listed, the digits of its host name.
pub open spec fn is_row_label(e: ExitView, show_all: bool, label: Seq<char>) -> bool {
    let upper = upper_of(e.country_code);
    let place = " "@ + upper + " / "@ + e.city_code;
    let tail = if show_all {
        "-"@ + digits_of(e.hostname)
    } else {
        Seq::empty()
    };
    exists|flag: Seq<char>| is_flag_of(upper, flag) && label == flag + place + tail
}

/// The hue shown for a load in thousandths, in hundredths of a degree: 150 degrees at no
/// load, falling by 16 hundredths per thousandth up to the cap.
pub open spec fn load_hue(load_permille: u32) -> int {
    let capped = if load_permille > LOAD_CAP_PERMILLE {
        LOAD_CAP_PERMILLE
    } else {
        load_permille
    };
    15000 - 16 * capped
}

/// The color shown for a load: its hue at saturation 0.8 and lightness 0.3.
pub open spec fn load_color(load_permille: u32) -> Color {
    let (r, g, b) = hsl_rgb(load_hue(load_permille), 800, 300);
    Color { r, g, b, a: 255 }
}

fn flag_glyph(c: char) -> (f: char)
    ensures
        flag_char(c, f),
{
    let v: u32 = c as u32 + REGIONAL_INDICATOR_OFFSET;
    match char_from_u32(v) {
        Some(f) => f,
        None => c,
    }
}

/// The flag of a country code that is already in upper case.
pub fn flag_of_upper(code: &str) -> (r: String)
    ensures
        is_flag_of(code@, r@),
{
    if code.unicode_len() != 2 {
        return String::from_str("Invalid country code");
    }
    let mut v: Vec<char> = Vec::new();
    v.push(flag_glyph(code.get_char(0)));
    v.push(flag_glyph(code.get_char(1)));
    string_from_chars(&v)
}

/// The flag of a country code: the regional indicator symbols of its upper-case form.
pub fn to_flag(country_code: &str) -> (r: String)
    ensures
        is_flag_of(upper_of(country_code@), r@),
        all_ascii(country_code@) ==> is_ascii_upper_of(country_code@, upper_of(country_code@)),
{
    let upper = uppercase(country_code);
    flag_of_upper(upper.as_str())
}

/// The numeric characters of a host name, in order (see `digits_of`).
pub fn numerify(s: &str) -> (r: String)
    ensures
        r@ == digits_of(s@),
{
    let n = s.unicode_len();
    let mut v: Vec<char> = Vec::new();
    let mut i: usize = 0;
    while i < n
        invariant
            n == s@.len(),
            i <= n,
            v@ == digits_of(s@.take(i as int)),
        decreases n - i,
    {
        let c = s.get_char(i);
        proof {
            reveal(Seq::filter);
            assert(s@.take(i as int + 1).drop_last() =~= s@.take(i as int));
        }
        if is_numeric(c) {
            v.push(c);
        }
        i = i + 1;
    }
    proof {
        assert(s@.take(n as int) =~= s@);
    }
    string_from_chars(&v)
}

/// The hue shown for a load in thousandths, in hundredths of a degree.
pub fn load_hue_hundredths(load_permille: u32) -> (h: i32)
    ensures
        h == load_hue(load_permille),
{
    let capped: u32 = if load_permille > LOAD_CAP_PERMILLE {
        LOAD_CAP_PERMILLE
    } else {
        load_permille
    };
    15000 - 16 * capped as i32
}

/// The color of the load badge for a load in thousandths.
pub fn load_to_color(load_permille: u32) -> (c: Color)
    ensures
        c == load_color(load_permille),
{
    let (r, g, b) = hsl_to_rgb(load_hue_hundredths(load_permille), 800, 300);
    Color::from_rgb(r, g, b)
}

/// The load in whole percent, rounded half up, as the load badge shows it.
pub fn load_percent(load_permille: u32) -> (p: u32)
    ensures
        p == (load_permille as int + 5) / 10,
{
    ((load_permille as u64 + 5) / 10) as u32
}

/// No load and the cap are the whole hue range apart (150 degrees down to -58), and the hue
/// never rises as the load grows; loads past the cap share its hue.
pub proof fn lemma_load_hue_range(a: u32, b: u32)
    ensures
        load_hue(0) == 15000,
        load_hue(LOAD_CAP_PERMILLE) == -5800,
        load_hue(0) - load_hue(LOAD_CAP_PERMILLE) == 20800,
        a <= b ==> load_hue(b) <= load_hue(a),
        a >= LOAD_CAP_PERMILLE ==> load_hue(a) == load_hue(LOAD_CAP_PERMILLE),
{
}

/// A server that traffic can leave through.
#[derive(Clone, Debug)]
pub struct ExitDescriptor {
    pub hostname: String,
    pub country_code: String,
    pub city_code: String,
    /// The server's load in thousandths; about 1300 is the most seen.
    pub load_permille: u32,
    /// The account tiers that may use the server.
    pub allowed_levels: Vec<String>,
}

/// What a server descriptor says, as mathematical values.
pub struct ExitView {
    pub hostname: Seq<char>,
    pub country_code: Seq<char>,
    pub city_code: Seq<char>,
    pub load_permille: u32,
    pub allowed_levels: Seq<Seq<char>>,
}

impl View for ExitDescriptor {
    type V = ExitView;

    open spec fn view(&self) -> ExitView {
        ExitView {
            hostname: self.hostname@,
            country_code: self.country_code@,
            city_code: self.city_code@,
            load_permille: self.load_permille,
            allowed_levels: self.allowed_levels@.map_values(|l: String| l@),
        }
    }
}

/// The views of a list of servers.
pub open spec fn views_of(s: Seq<ExitDescriptor>) -> Seq<ExitView> {
    s.map_values(|e: ExitDescriptor| e@)
}

/// Whether free accounts may use the server.
pub open spec fn allows_free(e: ExitView) -> bool {
    exists|i: int| 0 <= i < e.allowed_levels.len() && #[trigger] e.allowed_levels[i] == "free"@
}

/// Whether two servers stand in the same city of the same country.
pub open spec fn same_place(a: ExitView, b: ExitView) -> bool {
    a.country_code == b.country_code && a.city_code == b.city_code
}

/// The first server of each place, in the order first seen.
pub open spec fn condensed(s: Seq<ExitView>) -> Seq<ExitView>
    decreases s.len(),
{
    if s.len() == 0 {
        s
    } else {
        let prev = condensed(s.drop_last());
        if exists|j: int| 0 <= j < s.len() - 1 && same_place(#[trigger] s[j], s.last()) {
            prev
        } else {
            prev.push(s.last())
        }
    }
}

impl ExitDescriptor {
    pub fn new(
        hostname: String,
        country_code: String,
        city_code: String,
        load_permille: u32,
        allowed_levels: Vec<String>,
    ) -> (e: ExitDescriptor)
        ensures
            e == (ExitDescriptor { hostname, country_code, city_code, load_permille, allowed_levels }),
    {
        ExitDescriptor { hostname, country_code, city_code, load_permille, allowed_levels }
    }

    /// An equal copy.
    pub fn duplicate(&self) -> (e: ExitDescriptor)
        ensures
            e@ == self@,
    {
        let levels = self.allowed_levels.clone();
        proof {
            assert(levels@ =~= self.allowed_levels@);
        }
        ExitDescriptor {
            hostname: self.hostname.clone(),
            country_code: self.country_code.clone(),
            city_code: self.city_code.clone(),
            load_permille: self.load_permille,
            allowed_levels: levels,
        }
    }

    /// Whether free accounts may use the server.
    pub fn is_free(&self) -> (r: bool)
        ensures
            r == allows_free(self@),
    {
        let free = String::from_str("free");
        let mut i: usize = 0;
        while i < self.allowed_levels.len()
            invariant
                free@ == "free"@,
                i <= self.allowed_levels@.len(),
                forall|j: int| 0 <= j < i ==> #[trigger] self@.allowed_levels[j] != "free"@,
            decreases self.allowed_levels@.len() - i,
        {
            if self.allowed_levels[i] == free {
                assert(self@.allowed_levels[i as int] == "free"@);
                return true;
            }
            i = i + 1;
        }
        false
    }

    fn same_place_as(&self, other: &ExitDescriptor) -> (r: bool)
        ensures
            r == same_place(self@, other@),
    {
        self.country_code == other.country_code && self.city_code == other.city_code
    }
}

/// Lists servers to choose from and keeps the caller's choice.
#[derive(Clone, Debug)]
pub struct ExitSelector {
    pub exit_list: Vec<ExitDescriptor>,
    /// Whether servers closed to free accounts cannot be chosen.
    pub block_plus: bool,
    /// Whether every server is listed, or only the first of each place.
    pub show_all: bool,
    pub selected: Option<ExitDescriptor>,
}

#[derive(Clone, Copy, Debug, PartialEq, Eq, Structural)]
pub enum Tier {
    Free,
    Plus,
}

/// The badge that names the tier a server is open to.
#[derive(Clone, Copy, Debug, PartialEq, Eq, Structural)]
pub struct TierBadge {
    pub tier: Tier,
    pub text_color: Color,
    pub bg_color: Color,
}

/// Whether a row cannot be chosen: servers closed to free accounts, while those are blocked.
pub open spec fn row_disabled(block_plus: bool, e: ExitView) -> bool {
    block_plus && !allows_free(e)
}

pub open spec fn selection_view(o: Option<ExitDescriptor>) -> Option<ExitView> {
    match o {
        Some(e) => Some(e@),
        None => None,
    }
}

pub open spec fn free_bg() -> Color {
    Color { r: 226, g: 255, b: 226, a: 255 }
}

pub open spec fn plus_bg() -> Color {
    Color { r: 220, g: 220, b: 255, a: 255 }
}

pub open spec fn row_bg() -> Color {
    Color { r: 238, g: 238, b: 238, a: 255 }
}

/// The tier badge: "Free" in black on green for servers open to free accounts, else "Plus"
/// in black on blue, dimmed while such servers are blocked.
pub open spec fn tier_badge_of(block_plus: bool, e: ExitView) -> TierBadge {
    if allows_free(e) {
        TierBadge { tier: Tier::Free, text_color: black(), bg_color: free_bg() }
    } else if block_plus {
        TierBadge {
            tier: Tier::Plus,
            text_color: disabled_look(black(), EXIT_DISABLE_MULTIPLY, EXIT_DISABLE_OPACITY),
            bg_color: disabled_look(plus_bg(), EXIT_DISABLE_MULTIPLY, EXIT_DISABLE_OPACITY),
        }
    } else {
        TierBadge { tier: Tier::Plus, text_color: black(), bg_color: plus_bg() }
    }
}

impl ExitSelector {
    pub fn new(
        exit_list: Vec<ExitDescriptor>,
        block_plus: bool,
        show_all: bool,
        selected: Option<ExitDescriptor>,
    ) -> (s: ExitSelector)
        ensures
            s == (ExitSelector { exit_list, block_plus, show_all, selected }),
    {
        ExitSelector { exit_list, block_plus, show_all, selected }
    }

    pub fn selected(&self) -> (r: Option<&ExitDescriptor>)
        ensures
            r is Some <==> self.selected is Some,
            r is Some ==> *r->0 == self.selected->0,
    {
        self.selected.as_ref()
    }

    /// Sets whether every server is listed.
    pub fn set_show_all(&mut self, show_all: bool)
        ensures
            *final(self) == (ExitSelector { show_all, ..*old(self) }),
    {
        self.show_all = show_all;
    }

    /// The first server of each place (same country and city), in the order first seen.
    #[verifier::rlimit(30)]
    pub fn short_exit_list(&self) -> (r: Vec<ExitDescriptor>)
        ensures
            views_of(r@) == condensed(views_of(self.exit_list@)),
    {
        let ghost all = views_of(self.exit_list@);
        let n = self.exit_list.len();
        let mut out: Vec<ExitDescriptor> = Vec::new();
        let mut i: usize = 0;
        while i < n
            invariant
                n == self.exit_list@.len(),
                all == views_of(self.exit_list@),
                i <= n,
                views_of(out@) == condensed(all.take(i as int)),
            decreases n - i,
        {
            let mut seen = false;
            let mut j: usize = 0;
            while j < i
                invariant
                    n == self.exit_list@.len(),
                    all == views_of(self.exit_list@),
                    i < n,
                    j <= i,
                    seen == exists|k: int| 0 <= k < j && same_place(#[trigger] all[k], all[i as int]),
                decreases i - j,
            {
                let sp = self.exit_list[j].same_place_as(&self.exit_list[i]);
                proof {
                    assert(all[j as int] == self.exit_list@[j as int]@);
                    assert(all[i as int] == self.exit_list@[i as int]@);
                }
                if sp {
                    seen = true;
                }
                j = j + 1;
            }
            let ghost pre = all.take(i as int + 1);
            proof {
                assert(pre.drop_last() =~= all.take(i as int));
                assert(pre.last() == all[i as int]);
                assert(forall|k: int| 0 <= k < i ==> #[trigger] pre[k] == all[k]);
                if seen {
                    let k = choose|k: int| 0 <= k < i && same_place(#[trigger] all[k], all[i as int]);
                    assert(pre[k] == all[k]);
                    assert(same_place(pre[k], pre.last()));
                } else {
                    assert forall|k: int| 0 <= k < pre.len() - 1 implies !same_place(
                        #[trigger] pre[k],
                        pre.last(),
                    ) by {
                        assert(pre[k] == all[k]);
                    }
                }
            }
            if !seen {
                let ghost before = out@;
                let e = self.exit_list[i].duplicate();
                out.push(e);
                proof {
                    assert(views_of(out@) =~= views_of(before).push(all[i as int]));
                }
            }
            i = i + 1;
        }
        proof {
            assert(all.take(n as int) =~= all);
        }
        out
    }

    /// Every server, in order.
    fn full_exit_list(&self) -> (r: Vec<ExitDescriptor>)
        ensures
            views_of(r@) == views_of(self.exit_list@),
    {
        let n = self.exit_list.len();
        let mut out: Vec<ExitDescriptor> = Vec::new();
        let mut i: usize = 0;
        while i < n
            invariant
                n == self.exit_list@.len(),
                i <= n,
                views_of(out@) == views_of(self.exit_list@).take(i as int),
            decreases n - i,
        {
            let ghost before = out@;
            let e = self.exit_list[i].duplicate();
            out.push(e);
            proof {
                assert(views_of(out@) =~= views_of(before).push(self.exit_list@[i as int]@));
                assert(views_of(out@) =~= views_of(self.exit_list@).take(i as int + 1));
            }
            i = i + 1;
        }
        proof {
            assert(views_of(self.exit_list@).take(n as int) =~= views_of(self.exit_list@));
        }
        out
    }

    /// The servers listed: all of them, or the first of each place.
    pub fn visible_exits(&self) -> (r: Vec<ExitDescriptor>)
        ensures
            views_of(r@) == (if self.show_all {
                views_of(self.exit_list@)
            } else {
                condensed(views_of(self.exit_list@))
            }),
    {
        if self.show_all {
            self.full_exit_list()
        } else {
            self.short_exit_list()
        }
    }

    /// Whether the row of `exit` cannot be chosen.
    pub fn is_disabled(&self, exit: &ExitDescriptor) -> (r: bool)
        ensures
            r == row_disabled(self.block_plus, exit@),
    {
        self.block_plus && !exit.is_free()
    }

    /// A click on the row of `exit`: chooses it unless its row is disabled. Returns whether it
    /// was chosen.
    pub fn click(&mut self, exit: &ExitDescriptor) -> (chosen: bool)
        ensures
            chosen == !row_disabled(old(self).block_plus, exit@),
            final(self).exit_list == old(self).exit_list,
            final(self).block_plus == old(self).block_plus,
            final(self).show_all == old(self).show_all,
            chosen ==> selection_view(final(self).selected) == Some(exit@),
            !chosen ==> final(self).selected == old(self).selected,
    {
        if self.is_disabled(exit) {
            false
        } else {
            self.selected = Some(exit.duplicate());
            true
        }
    }

    /// The background of the row of `exit`, dimmed when it cannot be chosen.
    pub fn row_background(&self, exit: &ExitDescriptor) -> (c: Color)
        ensures
            c == (if row_disabled(self.block_plus, exit@) {
                disabled_look(row_bg(), EXIT_DISABLE_MULTIPLY, EXIT_DISABLE_OPACITY)
            } else {
                row_bg()
            }),
    {
        let bg = Color::from_rgb(238, 238, 238);
        if self.is_disabled(exit) {
            disable_color(bg, EXIT_DISABLE_MULTIPLY, EXIT_DISABLE_OPACITY)
        } else {
            bg
        }
    }

    /// The label of the row of `exit`.
    pub fn row_label(&self, exit: &ExitDescriptor) -> (r: String)
        ensures
            is_row_label(exit@, self.show_all, r@),
    {
        let upper = uppercase(exit.country_code.as_str());
        let mut label = flag_of_upper(upper.as_str());
        let ghost flag = label@;
        label.append(" ");
        label.append(upper.as_str());
        label.append(" / ");
        label.append(exit.city_code.as_str());
        let ghost head = label@;
        if self.show_all {
            let digits = numerify(exit.hostname.as_str());
            label.append("-");
            label.append(digits.as_str());
        }
        proof {
            reveal_strlit(" ");
            reveal_strlit(" / ");
            reveal_strlit("-");
            let place = " "@ + upper@ + " / "@ + exit.city_code@;
            assert(head =~= flag + place);
            let tail = if self.show_all {
                "-"@ + digits_of(exit.hostname@)
            } else {
                Seq::empty()
            };
            assert(label@ =~= flag + place + tail);
            // the witness of the flag in `is_row_label`
            assert(is_flag_of(upper_of(exit@.country_code), flag));
        }
        label
    }

    /// The tier badge of `exit`.
    pub fn tier_badge(&self, exit: &ExitDescriptor) -> (t: TierBadge)
        ensures
            t == tier_badge_of(self.block_plus, exit@),
    {
        let black = Color::black();
        if exit.is_free() {
            TierBadge { tier: Tier::Free, text_color: black, bg_color: Color::from_rgb(226, 255, 226) }
        } else if self.block_plus {
            TierBadge {
                tier: Tier::Plus,
                text_color: disable_color(black, EXIT_DISABLE_MULTIPLY, EXIT_DISABLE_OPACITY),
                bg_color: disable_color(
                    Color::from_rgb(220, 220, 255),
                    EXIT_DISABLE_MULTIPLY,
                    EXIT_DISABLE_OPACITY,
                ),
            }
        } else {
            TierBadge { tier: Tier::Plus, text_color: black, bg_color: Color::from_rgb(220, 220, 255) }
        }
    }
}

/// Whether some server of the list stands in the same place as `e`.
pub open spec fn has_place(list: Seq<ExitView>, e: ExitView) -> bool {
    exists|k: int| 0 <= k < list.len() && same_place(#[trigger] list[k], e)
}

/// Whether `e` is the server of `s` at an index where its place first appears.
pub open spec fn first_of_place_in(s: Seq<ExitView>, e: ExitView) -> bool {
    exists|i: int|
        0 <= i < s.len() && #[trigger] s[i] == e && forall|j: int|
            0 <= j < i ==> !same_place(#[trigger] s[j], s[i])
}

#[verifier::rlimit(30)]
proof fn lemma_condensed_origin(s: Seq<ExitView>)
    ensures
        forall|k: int| 0 <= k < condensed(s).len() ==> first_of_place_in(s, #[trigger] condensed(s)[k]),
    decreases s.len(),
{
    if s.len() > 0 {
        let p = s.drop_last();
        let c = condensed(p);
        let r = condensed(s);
        lemma_condensed_origin(p);
        assert forall|k: int| 0 <= k < r.len() implies first_of_place_in(s, #[trigger] r[k]) by {
            if k < c.len() {
                assert(r[k] == c[k]);
                assert(first_of_place_in(p, c[k]));
                let i = choose|i: int|
                    0 <= i < p.len() && #[trigger] p[i] == c[k] && forall|j: int|
                        0 <= j < i ==> !same_place(#[trigger] p[j], p[i]);
                assert(s[i] == p[i]);
                assert forall|j: int| 0 <= j < i implies !same_place(#[trigger] s[j], s[i]) by {
                    assert(s[j] == p[j]);
                }
            } else {
                let n = s.len() - 1;
                assert(r[k] == s[n]);
                assert forall|j: int| 0 <= j < n implies !same_place(#[trigger] s[j], s[n]) by {}
            }
        }
    }
}

#[verifier::rlimit(30)]
proof fn lemma_condensed_distinct(s: Seq<ExitView>)
    ensures
        forall|a: int, b: int|
            0 <= a < b < condensed(s).len() ==> !same_place(
                #[trigger] condensed(s)[a],
                #[trigger] condensed(s)[b],
            ),
    decreases s.len(),
{
    if s.len() > 0 {
        let p = s.drop_last();
        let c = condensed(p);
        let r = condensed(s);
        lemma_condensed_distinct(p);
        lemma_condensed_origin(p);
        assert forall|a: int, b: int| 0 <= a < b < r.len() implies !same_place(
            #[trigger] r[a],
            #[trigger] r[b],
        ) by {
            assert(r[a] == c[a]);
            if b < c.len() {
                assert(r[b] == c[b]);
            } else {
                assert(first_of_place_in(p, c[a]));
                let i = choose|i: int|
                    0 <= i < p.len() && #[trigger] p[i] == c[a] && forall|j: int|
                        0 <= j < i ==> !same_place(#[trigger] p[j], p[i]);
                assert(s[i] == p[i]);
            }
        }
    }
}

#[verifier::rlimit(30)]
proof fn lemma_condensed_covers(s: Seq<ExitView>)
    ensures
        forall|i: int| 0 <= i < s.len() ==> has_place(condensed(s), #[trigger] s[i]),
    decreases s.len(),
{
    if s.len() > 0 {
        let p = s.drop_last();
        let c = condensed(p);
        let r = condensed(s);
        let n = s.len() - 1;
        lemma_condensed_covers(p);
        assert forall|i: int| 0 <= i < s.len() implies has_place(r, #[trigger] s[i]) by {
            if i < n {
                assert(s[i] == p[i]);
                assert(has_place(c, p[i]));
                let k = choose|k: int| 0 <= k < c.len() && same_place(#[trigger] c[k], p[i]);
                assert(r[k] == c[k]);
            } else if exists|j: int| 0 <= j < n && same_place(#[trigger] s[j], s.last()) {
                let j = choose|j: int| 0 <= j < n && same_place(#[trigger] s[j], s.last());
                assert(s[j] == p[j]);
                assert(has_place(c, p[j]));
                let k = choose|k: int| 0 <= k < c.len() && same_place(#[trigger] c[k], p[j]);
                assert(r[k] == c[k]);
            } else {
                assert(r[c.len() as int] == s[i]);
            }
        }
    }
}

/// The condensed list holds one server per place, covers every place of the full list, and
/// takes each server from the full list where its place first appears.
pub proof fn lemma_condensed_first_of_each_place(s: Seq<ExitView>)
    ensures
        forall|a: int, b: int|
            0 <= a < b < condensed(s).len() ==> !same_place(
                #[trigger] condensed(s)[a],
                #[trigger] condensed(s)[b],
            ),
        forall|i: int| 0 <= i < s.len() ==> has_place(condensed(s), #[trigger] s[i]),
        forall|k: int| 0 <= k < condensed(s).len() ==> first_of_place_in(s, #[trigger] condensed(s)[k]),
{
    lemma_condensed_distinct(s);
    lemma_condensed_covers(s);
    lemma_condensed_origin(s);
}

} // verus!
