//! Banner lines: turning the banner tool's output, or its absence, into
//! styled lines, and a cache of them keyed by text, font and color.
use vstd::prelude::*;

verus! {

/// A terminal color.
#[derive(Debug, Clone, Copy, PartialEq, Eq, Structural)]
pub enum Color {
    Reset,
    Black,
    Red,
    Green,
    Yellow,
    Blue,
    Magenta,
    Cyan,
    Gray,
    DarkGray,
    LightRed,
    LightGreen,
    LightYellow,
    LightBlue,
    LightMagenta,
    LightCyan,
    White,
    Rgb(u8, u8, u8),
    Indexed(u8),
}

/// How a line of text is drawn.
#[derive(Debug, Clone, Copy, PartialEq, Eq, Structural)]
pub struct TextStyle {
    pub fg: Option<Color>,
    pub bold: bool,
    pub dim: bool,
    pub reversed: bool,
}

/// One line of text with its style.
#[derive(Debug, PartialEq, Eq)]
pub struct StyledLine {
    pub text: String,
    pub style: TextStyle,
}

/// A styled line as a value.
pub type LineModel = (Seq<char>, TextStyle);

/// A sequence of styled lines as values.
pub open spec fn lines_model(v: Seq<StyledLine>) -> Seq<LineModel> {
    v.map_values(|l: StyledLine| (l.text@, l.style))
}

/// The style with foreground `color` and no other attribute.
pub open spec fn color_only(color: Color) -> TextStyle {
    TextStyle { fg: Some(color), bold: false, dim: false, reversed: false }
}

/// Each of `lines` drawn in `style`.
pub open spec fn styled(lines: Seq<Seq<char>>, style: TextStyle) -> Seq<LineModel> {
    lines.map_values(|l: Seq<char>| (l, style))
}

/// `l` without one trailing carriage return.
pub open spec fn strip_cr(l: Seq<char>) -> Seq<char> {
    if l.len() > 0 && l.last() == '\r' {
        l.drop_last()
    } else {
        l
    }
}

/// The lines ended by a line feed in `s`, and where the unfinished line starts.
pub open spec fn lines_scan(s: Seq<char>) -> (Seq<Seq<char>>, int)
    decreases s.len(),
{
    if s.len() == 0 {
        (Seq::empty(), 0)
    } else {
        let (done, start) = lines_scan(s.drop_last());
        if s.last() == '\n' {
            (done.push(strip_cr(s.subrange(start, s.len() - 1))), s.len() as int)
        } else {
            (done, start)
        }
    }
}

/// The lines of `s`: split at each line feed, a carriage return before the
/// line feed dropped, and no empty line after a final line feed.
pub open spec fn lines_of(s: Seq<char>) -> Seq<Seq<char>> {
    let (done, start) = lines_scan(s);
    if start < s.len() {
        done.push(s.subrange(start, s.len() as int))
    } else {
        done
    }
}

/// `n` dashes.
pub open spec fn dashes(n: nat) -> Seq<char> {
    Seq::new(n, |i: int| '-')
}

/// The three lines of the box drawn round `text` when no banner is at hand.
pub open spec fn fallback_box(text: Seq<char>) -> Seq<Seq<char>> {
    let border = seq!['+'] + dashes(text.len() + 2) + seq!['+'];
    seq![border, seq!['|', ' '] + text + seq![' ', '|'], border]
}

/// The banner lines for `text` in `color`, from what the banner tool printed
/// (`None` when it failed); empty output counts as a failure.
pub open spec fn banner_of(output: Option<Seq<char>>, text: Seq<char>, color: Color) -> Seq<LineModel> {
    match output {
        Some(o) if o.len() > 0 => styled(lines_of(o), color_only(color)),
        _ => styled(fallback_box(text), color_only(color)),
    }
}

/// Splits `s` into its lines.
pub fn split_lines(s: &str) -> (r: Vec<String>)
    ensures
        r@.map_values(|l: String| l@) == lines_of(s@),
{
    let n = s.unicode_len();
    let mut out: Vec<String> = Vec::new();
    let mut start: usize = 0;
    let mut i: usize = 0;
    while i < n
        invariant
            n == s@.len(),
            i <= n,
            start <= i,
            lines_scan(s@.take(i as int)) == (out@.map_values(|l: String| l@), start as int),
        decreases n - i,
    {
        let c = s.get_char(i);
        proof {
            assert(s@.take(i + 1).drop_last() =~= s@.take(i as int));
            assert(s@.take(i + 1).subrange(start as int, i as int) =~= s@.subrange(start as int, i as int));
        }
        if c == '\n' {
            let mut end = i;
            if end > start && s.get_char(end - 1) == '\r' {
                end = end - 1;
            }
            let line = s.substring_char(start, end).to_owned();
            proof {
                let l = s@.subrange(start as int, i as int);
                assert(strip_cr(l) =~= s@.subrange(start as int, end as int));
            }
            out.push(line);
            start = i + 1;
        }
        i = i + 1;
        proof {
            assert(out@.map_values(|l: String| l@) =~= lines_scan(s@.take(i as int)).0);
        }
    }
    proof {
        assert(s@.take(n as int) =~= s@);
    }
    if start < n {
        let last = s.substring_char(start, n).to_owned();
        out.push(last);
        proof {
            assert(out@.map_values(|l: String| l@) =~= lines_of(s@));
        }
    }
    out
}

/// The box drawn round `text`, as three lines.
pub fn fallback_lines(text: &str) -> (r: Vec<String>)
    ensures
        r@.map_values(|l: String| l@) == fallback_box(text@),
{
    let n = text.unicode_len();
    proof {
        reveal_strlit("+");
        reveal_strlit("-");
        reveal_strlit("| ");
        reveal_strlit(" |");
        assert("+"@ =~= seq!['+']);
        assert("-"@ =~= seq!['-']);
        assert("| "@ =~= seq!['|', ' ']);
        assert(" |"@ =~= seq![' ', '|']);
    }
    let mut border = String::new();
    border.append("+");
    border.append("-");
    border.append("-");
    assert(border@ =~= seq!['+'] + dashes(2));
    let mut i: usize = 0;
    while i < n
        invariant
            n == text@.len(),
            i <= n,
            border@ == seq!['+'] + dashes((i + 2) as nat),
            "-"@ == seq!['-'],
        decreases n - i,
    {
        border.append("-");
        i = i + 1;
        assert(border@ =~= seq!['+'] + dashes((i + 2) as nat));
    }
    border.append("+");
    let mut middle = String::new();
    middle.append("| ");
    middle.append(text);
    middle.append(" |");
    let bottom = border.clone();
    let r = vec![border, middle, bottom];
    assert(r@.map_values(|l: String| l@) =~= fallback_box(text@));
    r
}

/// The banner lines for `text` in `color`, given what the banner tool printed
/// when it ran successfully (`None` when it could not run or failed). Each
/// line of non-empty output becomes one line in `color`; otherwise a box is
/// drawn round `text`.
pub fn render_banner(output: Option<String>, text: &str, color: Color) -> (r: Vec<StyledLine>)
    ensures
        lines_model(r@) == banner_of(output_model(output), text@, color),
{
    let raw = match output {
        Some(o) => {
            if o.as_str().unicode_len() > 0 {
                split_lines(o.as_str())
            } else {
                fallback_lines(text)
            }
        },
        None => fallback_lines(text),
    };
    let style = TextStyle { fg: Some(color), bold: false, dim: false, reversed: false };
    let mut out: Vec<StyledLine> = Vec::new();
    let mut i: usize = 0;
    while i < raw.len()
        invariant
            i <= raw.len(),
            out.len() == i,
            forall|j: int| 0 <= j < i ==> out@[j].text@ == raw@[j]@ && out@[j].style == style,
        decreases raw.len() - i,
    {
        out.push(StyledLine { text: raw[i].clone(), style });
        i = i + 1;
    }
    assert(lines_model(out@) =~= styled(raw@.map_values(|l: String| l@), style));
    out
}

/// What the cache is keyed by: text, font and color.
pub type BannerKey = (Seq<char>, Seq<char>, Color);

/// What a call of the banner tool printed, as a value.
pub open spec fn output_model(o: Option<String>) -> Option<Seq<char>> {
    match o {
        Some(s) => Some(s@),
        None => None,
    }
}

/// The cache and the lines handed back after a request for `key`, where
/// `output` is what the banner tool would print for it: a stored entry is
/// handed back as it is and the tool's output is not consulted; otherwise the
/// lines are made from the output and stored.
pub open spec fn cache_step(
    m: Map<BannerKey, Seq<LineModel>>,
    key: BannerKey,
    output: Option<Seq<char>>,
) -> (Map<BannerKey, Seq<LineModel>>, Seq<LineModel>) {
    if m.contains_key(key) {
        (m, m[key])
    } else {
        let v = banner_of(output, key.0, key.2);
        (m.insert(key, v), v)
    }
}

struct CacheEntry {
    text: String,
    font: String,
    color: Color,
    lines: Vec<StyledLine>,
}

spec fn entry_key(e: CacheEntry) -> BannerKey {
    (e.text@, e.font@, e.color)
}

spec fn find_in(s: Seq<CacheEntry>, k: BannerKey) -> Option<Seq<LineModel>>
    decreases s.len(),
{
    if s.len() == 0 {
        None
    } else if entry_key(s[0]) == k {
        Some(lines_model(s[0].lines@))
    } else {
        find_in(s.skip(1), k)
    }
}

proof fn lemma_find_in_push(s: Seq<CacheEntry>, e: CacheEntry, k: BannerKey)
    ensures
        find_in(s.push(e), k) == (match find_in(s, k) {
            Some(v) => Some(v),
            None => if entry_key(e) == k {
                Some(lines_model(e.lines@))
            } else {
                None
            },
        }),
    decreases s.len(),
{
    if s.len() == 0 {
        assert(s.push(e).skip(1) =~= Seq::<CacheEntry>::empty());
        assert(s.push(e)[0] == e);
        assert(find_in(Seq::<CacheEntry>::empty(), k) is None);
    } else {
        assert(s.push(e)[0] == s[0]);
        assert(s.push(e).skip(1) =~= s.skip(1).push(e));
        lemma_find_in_push(s.skip(1), e, k);
    }
}

proof fn lemma_find_in_none(s: Seq<CacheEntry>, k: BannerKey)
    requires
        find_in(s, k) is None,
    ensures
        forall|i: int| 0 <= i < s.len() ==> entry_key(#[trigger] s[i]) != k,
    decreases s.len(),
{
    if s.len() > 0 {
        lemma_find_in_none(s.skip(1), k);
        assert forall|i: int| 0 <= i < s.len() implies entry_key(#[trigger] s[i]) != k by {
            if i > 0 {
                assert(s[i] == s.skip(1)[i - 1]);
            }
        }
    }
}

/// Banner lines already made, each stored under its text, font and color and
/// never replaced.
pub struct BannerCache {
    entries: Vec<CacheEntry>,
}

/// A copy of `v`.
fn copy_lines(v: &Vec<StyledLine>) -> (r: Vec<StyledLine>)
    ensures
        lines_model(r@) == lines_model(v@),
{
    let mut out: Vec<StyledLine> = Vec::new();
    let mut i: usize = 0;
    while i < v.len()
        invariant
            i <= v.len(),
            out.len() == i,
            forall|j: int| 0 <= j < i ==> out@[j].text@ == v@[j].text@ && out@[j].style == v@[j].style,
        decreases v.len() - i,
    {
        out.push(StyledLine { text: v[i].text.clone(), style: v[i].style });
        i = i + 1;
    }
    assert(lines_model(out@) =~= lines_model(v@));
    out
}

impl BannerCache {
    /// The stored lines, by key.
    pub closed spec fn model(&self) -> Map<BannerKey, Seq<LineModel>> {
        Map::new(|k: BannerKey| find_in(self.entries@, k) is Some, |k: BannerKey| find_in(self.entries@, k)->0)
    }

    /// No two entries share a key.
    pub closed spec fn wf(&self) -> bool {
        forall|i: int, j: int|
            0 <= i < j < self.entries.len() ==> entry_key(#[trigger] self.entries@[i]) != entry_key(
                #[trigger] self.entries@[j],
            )
    }

    /// An empty cache.
    pub fn new() -> (r: BannerCache)
        ensures
            r.wf(),
            r.model() == Map::<BannerKey, Seq<LineModel>>::empty(),
    {
        let r = BannerCache { entries: Vec::new() };
        assert(r.model() =~= Map::<BannerKey, Seq<LineModel>>::empty());
        r
    }

    /// The lines stored for `text`, `font` and `color`, if any.
    pub fn lookup(&self, text: &str, font: &str, color: Color) -> (r: Option<Vec<StyledLine>>)
        ensures
            r is Some <==> self.model().contains_key((text@, font@, color)),
            r matches Some(v) ==> lines_model(v@) == self.model()[(text@, font@, color)],
    {
        let ghost k = (text@, font@, color);
        let key_text = text.to_owned();
        let key_font = font.to_owned();
        let mut i: usize = 0;
        assert(self.entries@.skip(0) =~= self.entries@);
        while i < self.entries.len()
            invariant
                i <= self.entries.len(),
                key_text@ == text@,
                key_font@ == font@,
                k == (text@, font@, color),
                find_in(self.entries@, k) == find_in(self.entries@.skip(i as int), k),
            decreases self.entries.len() - i,
        {
            let e = &self.entries[i];
            assert(self.entries@.skip(i as int)[0] == self.entries@[i as int]);
            if e.text == key_text && e.font == key_font && e.color == color {
                let found = copy_lines(&e.lines);
                assert(entry_key(self.entries@[i as int]) == k);
                return Some(found);
            }
            assert(self.entries@.skip(i as int).skip(1) =~= self.entries@.skip(i + 1));
            i = i + 1;
        }
        assert(self.entries@.skip(i as int) =~= Seq::<CacheEntry>::empty());
        None
    }

    /// The banner lines for `text` in `font` and `color`. When none are
    /// stored, `render` is called with the text and the font; what it returns
    /// is the banner tool's output (`None` when the tool failed), and the
    /// lines made from it are stored. When lines are stored, they are handed
    /// back and `render` is not called.
    pub fn get_or_render<F: FnOnce(&str, &str) -> Option<String>>(
        &mut self,
        text: &str,
        font: &str,
        color: Color,
        render: F,
    ) -> (r: Vec<StyledLine>)
        requires
            old(self).wf(),
            !old(self).model().contains_key((text@, font@, color)) ==> render.requires((text, font)),
        ensures
            final(self).wf(),
            old(self).model().contains_key((text@, font@, color)) ==> (final(self).model(), lines_model(r@))
                == cache_step(old(self).model(), (text@, font@, color), None),
            !old(self).model().contains_key((text@, font@, color)) ==> exists|o: Option<String>|
                render.ensures((text, font), o) && (final(self).model(), lines_model(r@)) == cache_step(
                    old(self).model(),
                    (text@, font@, color),
                    output_model(o),
                ),
    {
        match self.lookup(text, font, color) {
            Some(v) => v,
            None => {
                let output = render(text, font);
                let ghost produced = output;
                let lines = render_banner(output, text, color);
                let stored = copy_lines(&lines);
                let e = CacheEntry { text: text.to_owned(), font: font.to_owned(), color, lines: stored };
                let ghost before = self.entries@;
                proof {
                    lemma_find_in_none(before, (text@, font@, color));
                }
                self.entries.push(e);
                proof {
                    let k = (text@, font@, color);
                    assert forall|i: int, j: int| 0 <= i < j < self.entries.len() implies entry_key(
                        #[trigger] self.entries@[i],
                    ) != entry_key(#[trigger] self.entries@[j]) by {
                        if j == before.len() {
                            assert(entry_key(before[i]) != k);
                        } else {
                            assert(self.entries@[i] == before[i] && self.entries@[j] == before[j]);
                        }
                    }
                    assert forall|k2: BannerKey| find_in(self.entries@, k2) == (if k2 == k {
                        Some(lines_model(lines@))
                    } else {
                        find_in(before, k2)
                    }) by {
                        lemma_find_in_push(before, e, k2);
                    }
                    assert(self.model() =~= old(self).model().insert(k, lines_model(lines@)));
                    assert(render.ensures((text, font), produced));
                    assert((self.model(), lines_model(lines@)) == cache_step(old(self).model(), k, output_model(produced)));
                }
                lines
            },
        }
    }
}

/// A second request for the same key hands back what the first one did and
/// leaves the cache as the first one left it, whatever the banner tool would
/// print the second time: the tool is not consulted again.
pub proof fn lemma_second_request_hits(
    m: Map<BannerKey, Seq<LineModel>>,
    key: BannerKey,
    first: Option<Seq<char>>,
    second: Option<Seq<char>>,
)
    ensures
        ({
            let (m1, r1) = cache_step(m, key, first);
            &&& m1.contains_key(key)
            &&& cache_step(m1, key, second) == (m1, r1)
        }),
{
}

} // verus!
