//! The text forms of the domain types: a show's card, a timetable column's
//! heading, a minute on the clock.
use vstd::prelude::*;
use crate::anime::{Anime, AnimeSite, AnimeStreaming, AnimeView};
use crate::minute::Minute;
use crate::schedule::ScheduleDay;
use crate::text::{char_from_digit, chars_to_string, decimal_digits, digit_char, str_chars, u64_to_decimal};
use crate::weekday::{Weekday, days_from_monday};

verus! {

/// The three-letter English name of a weekday, as chrono prints it.
pub open spec fn weekday_name(day: Weekday) -> Seq<char> {
    match day {
        Weekday::Monday => "Mon"@,
        Weekday::Tuesday => "Tue"@,
        Weekday::Wednesday => "Wed"@,
        Weekday::Thursday => "Thu"@,
        Weekday::Friday => "Fri"@,
        Weekday::Saturday => "Sat"@,
        Weekday::Sunday => "Sun"@,
    }
}

/// chrono's names of the days, from Monday on.
pub open spec fn weekday_names_from_monday() -> Seq<Seq<char>> {
    seq!["Mon"@, "Tue"@, "Wed"@, "Thu"@, "Fri"@, "Sat"@, "Sun"@]
}

/// A day is named by its place in the week counted from Monday, with
/// chrono's three-letter English names; no two days share a name, and no
/// day's heading is the heading of the undecided column.
pub proof fn lemma_weekday_names(a: Weekday, b: Weekday)
    ensures
        weekday_name(a) == weekday_names_from_monday()[days_from_monday(a) as int],
        weekday_name(a).len() == 3,
        a != b ==> weekday_name(a) != weekday_name(b),
        schedule_day_label(ScheduleDay::Weekday(a)) != schedule_day_label(ScheduleDay::Unknown),
{
    reveal_strlit("Mon");
    reveal_strlit("Tue");
    reveal_strlit("Wed");
    reveal_strlit("Thu");
    reveal_strlit("Fri");
    reveal_strlit("Sat");
    reveal_strlit("Sun");
    reveal_strlit("時間未定");
    if a != b {
        assert(weekday_name(a)[0] != weekday_name(b)[0] || weekday_name(a)[1] != weekday_name(b)[1]);
    }
    assert(weekday_name(a).len() != "時間未定"@.len());
}

/// The headings of the columns tell the columns apart.
pub proof fn lemma_column_headings_differ(x: ScheduleDay, y: ScheduleDay)
    ensures
        x != y ==> schedule_day_label(x) != schedule_day_label(y),
{
    match (x, y) {
        (ScheduleDay::Weekday(a), ScheduleDay::Weekday(b)) => lemma_weekday_names(a, b),
        (ScheduleDay::Weekday(a), ScheduleDay::Unknown) => lemma_weekday_names(a, a),
        (ScheduleDay::Unknown, ScheduleDay::Weekday(b)) => lemma_weekday_names(b, b),
        _ => {},
    }
}

impl Weekday {
    /// The three-letter English name of the day.
    pub fn short_name(self) -> (s: &'static str)
        ensures
            s@ == weekday_name(self),
    {
        match self {
            Weekday::Monday => "Mon",
            Weekday::Tuesday => "Tue",
            Weekday::Wednesday => "Wed",
            Weekday::Thursday => "Thu",
            Weekday::Friday => "Fri",
            Weekday::Saturday => "Sat",
            Weekday::Sunday => "Sun",
        }
    }
}

/// A number below 100 as two digits.
pub open spec fn two_digits(n: nat) -> Seq<char> {
    seq![digit_char(n / 10), digit_char(n % 10)]
}

/// A minute of the day as `HH:MM`.
pub open spec fn clock_text(m: nat) -> Seq<char> {
    two_digits(m / 60) + ":"@ + two_digits(m % 60)
}

fn append_two_digits(out: &mut String, n: u16)
    requires
        n < 100,
    ensures
        final(out)@ == old(out)@ + two_digits(n as nat),
{
    let digits = [char_from_digit((n / 10) as u32), char_from_digit((n % 10) as u32)];
    let text = chars_to_string(&digits);
    out.append(text.as_str());
    assert(text@ =~= two_digits(n as nat));
}

impl Minute {
    /// The minute as `HH:MM`.
    pub fn clock(self) -> (s: String)
        ensures
            s@ == clock_text(self@),
    {
        let mut s = String::new();
        append_two_digits(&mut s, self.hour());
        s.append(":");
        append_two_digits(&mut s, self.minute_of_hour());
        assert(s@ =~= clock_text(self@));
        s
    }
}

/// The heading of a timetable column.
pub open spec fn schedule_day_label(day: ScheduleDay) -> Seq<char> {
    match day {
        ScheduleDay::Weekday(d) => weekday_name(d),
        ScheduleDay::Unknown => "時間未定"@,
    }
}

impl ScheduleDay {
    /// The heading of the column: the weekday's name, or "to be decided".
    pub fn label(self) -> (s: &'static str)
        ensures
            s@ == schedule_day_label(self),
    {
        match self {
            ScheduleDay::Weekday(d) => d.short_name(),
            ScheduleDay::Unknown => "時間未定",
        }
    }
}

/// The lines of a text as `str::lines` gives them, scanned from position
/// `i` with the line `cur` begun and the lines `done` complete: a line ends
/// at `\n`, which is dropped with one `\r` before it, and a last line that
/// no `\n` ends counts unless it is empty.
pub open spec fn scan_lines(s: Seq<char>, i: int, cur: Seq<char>, done: Seq<Seq<char>>) -> Seq<Seq<char>>
    decreases s.len() - i,
{
    if i >= s.len() {
        if cur.len() == 0 {
            done
        } else {
            done.push(cur)
        }
    } else if s[i] == '\n' {
        scan_lines(s, i + 1, Seq::empty(), done.push(strip_cr(cur)))
    } else {
        scan_lines(s, i + 1, cur.push(s[i]), done)
    }
}

/// A line without the one `\r` that may end it.
pub open spec fn strip_cr(line: Seq<char>) -> Seq<char> {
    if line.len() > 0 && line.last() == '\r' {
        line.drop_last()
    } else {
        line
    }
}

/// The lines of a text, as `str::lines` gives them.
pub open spec fn lines_of(s: Seq<char>) -> Seq<Seq<char>> {
    scan_lines(s, 0, Seq::empty(), Seq::empty())
}

/// The lines of `text`, as `str::lines` gives them.
pub fn text_lines(text: &str) -> (r: Vec<String>)
    ensures
        r.deep_view() == lines_of(text@),
{
    let chars = str_chars(text);
    let mut done: Vec<String> = Vec::new();
    let mut cur: Vec<char> = Vec::new();
    let mut i: usize = 0;
    assert(cur@ =~= Seq::<char>::empty());
    assert(done.deep_view() =~= Seq::<Seq<char>>::empty());
    while i < chars.len()
        invariant
            chars@ == text@,
            0 <= i <= chars@.len(),
            lines_of(text@) == scan_lines(text@, i as int, cur@, done.deep_view()),
        decreases chars@.len() - i,
    {
        let c = chars[i];
        if c == '\n' {
            let ghost before = done.deep_view();
            let n = cur.len();
            let line = if n > 0 && cur[n - 1] == '\r' {
                chars_to_string(&cur.as_slice()[0..n - 1])
            } else {
                chars_to_string(cur.as_slice())
            };
            assert(line@ =~= strip_cr(cur@));
            done.push(line);
            assert(done.deep_view() =~= before.push(strip_cr(cur@)));
            cur = Vec::new();
            assert(cur@ =~= Seq::<char>::empty());
        } else {
            cur.push(c);
        }
        i += 1;
    }
    if cur.len() > 0 {
        let ghost before = done.deep_view();
        let line = chars_to_string(cur.as_slice());
        done.push(line);
        assert(done.deep_view() =~= before.push(cur@));
    }
    done
}

/// Each text on a line of its own, after `prefix`.
pub open spec fn prefixed_lines(prefix: Seq<char>, lines: Seq<Seq<char>>) -> Seq<char>
    decreases lines.len(),
{
    if lines.len() == 0 {
        Seq::empty()
    } else {
        prefixed_lines(prefix, lines.drop_last()) + prefix + lines.last() + "\n"@
    }
}

fn append_prefixed_lines(out: &mut String, prefix: &str, lines: &Vec<String>)
    ensures
        final(out)@ == old(out)@ + prefixed_lines(prefix@, lines.deep_view()),
{
    let ghost start = out@;
    let ghost v = lines.deep_view();
    let mut i: usize = 0;
    while i < lines.len()
        invariant
            v == lines.deep_view(),
            0 <= i <= v.len(),
            out@ == start + prefixed_lines(prefix@, v.take(i as int)),
        decreases v.len() - i,
    {
        let ghost before = out@;
        out.append(prefix);
        out.append(lines[i].as_str());
        out.append("\n");
        assert(v.take(i + 1).drop_last() =~= v.take(i as int));
        assert(out@ =~= start + prefixed_lines(prefix@, v.take(i + 1)));
        i += 1;
    }
    assert(v.take(i as int) =~= v);
}

/// A titled list of texts on a show's card: the title and the count, then
/// each text, or `(none)`.
pub open spec fn string_list_text(title: Seq<char>, values: Seq<Seq<char>>) -> Seq<char> {
    "|-- "@ + title + " ("@ + decimal_digits(values.len()) + ")\n"@ + if values.len() == 0 {
        "|   (none)\n"@
    } else {
        prefixed_lines("|   - "@, values)
    }
}

/// Appends a titled list of texts to a show's card.
pub fn write_string_list(out: &mut String, title: &str, values: &Vec<String>)
    ensures
        final(out)@ == old(out)@ + string_list_text(title@, values.deep_view()),
{
    let ghost start = out@;
    out.append("|-- ");
    out.append(title);
    out.append(" (");
    out.append(u64_to_decimal(values.len() as u64).as_str());
    out.append(")\n");
    let ghost head = out@;
    if values.len() == 0 {
        out.append("|   (none)\n");
    } else {
        append_prefixed_lines(out, "|   - ", values);
    }
    assert(out@ =~= start + string_list_text(title@, values.deep_view()));
}

/// `yes` or `no`.
pub open spec fn yes_no(b: bool) -> Seq<char> {
    if b {
        "yes"@
    } else {
        "no"@
    }
}

/// The text of an optional field, or `(none)`.
pub open spec fn or_none(o: Option<Seq<char>>) -> Seq<char> {
    match o {
        Some(s) => s,
        None => "(none)"@,
    }
}

/// The line of a show's card that gives its broadcast slot.
pub open spec fn airing_text(t: Option<(Weekday, Option<nat>, Seq<char>)>) -> Seq<char> {
    match t {
        Some((week, Some(m), zone)) => "|   Airing: "@ + weekday_name(week) + " "@ + clock_text(m) + " ("@ + zone
            + ")\n"@,
        Some((week, None, zone)) => "|   Airing: "@ + weekday_name(week) + " time TBD ("@ + zone + ")\n"@,
        None => "|   Airing: not scheduled\n"@,
    }
}

/// The description section of a show's card: each line of it, or `(none)`.
pub open spec fn description_text(d: Seq<char>) -> Seq<char> {
    "|-- Description\n"@ + if d.len() == 0 {
        "|   (none)\n"@
    } else {
        prefixed_lines("|   "@, lines_of(d))
    }
}

/// The artwork section of a show's card.
pub open spec fn artwork_text(image: Option<Seq<char>>, banner: Option<Seq<char>>) -> Seq<char> {
    "|-- Artwork\n"@ + "|   Image: "@ + or_none(image) + "\n"@ + "|   Banner: "@ + or_none(banner) + "\n"@
}

/// The lines of the streaming offers: name and URL, then the logo.
pub open spec fn streaming_items(s: Seq<(Seq<char>, Seq<char>, Seq<char>)>) -> Seq<char>
    decreases s.len(),
{
    if s.len() == 0 {
        Seq::empty()
    } else {
        streaming_items(s.drop_last()) + "|   - "@ + s.last().0 + ": "@ + s.last().1 + "\n"@ + "|     Logo: "@
            + s.last().2 + "\n"@
    }
}

/// The streaming section of a show's card.
pub open spec fn streaming_text(s: Seq<(Seq<char>, Seq<char>, Seq<char>)>) -> Seq<char> {
    "|-- Streaming ("@ + decimal_digits(s.len()) + ")\n"@ + if s.len() == 0 {
        "|   (none)\n"@
    } else {
        streaming_items(s)
    }
}

/// The lines of the related sites: title and URL.
pub open spec fn site_items(s: Seq<(Seq<char>, Seq<char>)>) -> Seq<char>
    decreases s.len(),
{
    if s.len() == 0 {
        Seq::empty()
    } else {
        site_items(s.drop_last()) + "    - "@ + s.last().0 + ": "@ + s.last().1 + "\n"@
    }
}

/// The sites section, which closes a show's card.
pub open spec fn sites_text(s: Seq<(Seq<char>, Seq<char>)>) -> Seq<char> {
    "`-- Sites ("@ + decimal_digits(s.len()) + ")\n"@ + if s.len() == 0 {
        "    (none)\n"@
    } else {
        site_items(s)
    }
}

/// The head of a show's card: name, ID and whether it is for adults.
pub open spec fn card_head(a: AnimeView) -> Seq<char> {
    "+-- Anime: "@ + a.name + "\n"@ + "|   ID: "@ + a.id + "\n"@ + "|   Adult: "@ + yes_no(a.is_adult) + "\n"@
}

/// The card of a show, as the command line prints it.
pub open spec fn anime_text(a: AnimeView) -> Seq<char> {
    card_head(a) + airing_text(a.on_air_time) + description_text(a.description) + artwork_text(a.image, a.banner)
        + string_list_text("Cast"@, a.cast) + string_list_text("Genres"@, a.genres) + streaming_text(a.streaming)
        + sites_text(a.site)
}

fn append_head(out: &mut String, a: &Anime)
    ensures
        final(out)@ == old(out)@ + card_head(a.deep_view()),
{
    let ghost start = out@;
    out.append("+-- Anime: ");
    out.append(a.name.as_str());
    out.append("\n");
    out.append("|   ID: ");
    out.append(a.id.as_str());
    out.append("\n");
    out.append("|   Adult: ");
    out.append(if a.is_adult { "yes" } else { "no" });
    out.append("\n");
    assert(out@ =~= start + card_head(a.deep_view()));
}

fn append_airing(out: &mut String, a: &Anime)
    ensures
        final(out)@ == old(out)@ + airing_text(a.deep_view().on_air_time),
{
    let ghost start = out@;
    match &a.on_air_time {
        Some(time) => match time.minute {
            Some(minute) => {
                out.append("|   Airing: ");
                out.append(time.week.short_name());
                out.append(" ");
                out.append(minute.clock().as_str());
                out.append(" (");
                out.append(time.zone.as_str());
                out.append(")\n");
            },
            None => {
                out.append("|   Airing: ");
                out.append(time.week.short_name());
                out.append(" time TBD (");
                out.append(time.zone.as_str());
                out.append(")\n");
            },
        },
        None => {
            out.append("|   Airing: not scheduled\n");
        },
    }
    assert(out@ =~= start + airing_text(a.deep_view().on_air_time));
}

fn append_description(out: &mut String, a: &Anime)
    ensures
        final(out)@ == old(out)@ + description_text(a.description@),
{
    let ghost start = out@;
    out.append("|-- Description\n");
    if a.description.as_str().unicode_len() == 0 {
        out.append("|   (none)\n");
    } else {
        let lines = text_lines(a.description.as_str());
        append_prefixed_lines(out, "|   ", &lines);
    }
    assert(out@ =~= start + description_text(a.description@));
}

fn append_artwork(out: &mut String, a: &Anime)
    ensures
        final(out)@ == old(out)@ + artwork_text(a.deep_view().image, a.deep_view().banner),
{
    let ghost start = out@;
    out.append("|-- Artwork\n");
    out.append("|   Image: ");
    match &a.image {
        Some(s) => out.append(s.as_str()),
        None => out.append("(none)"),
    }
    out.append("\n");
    out.append("|   Banner: ");
    match &a.banner {
        Some(s) => out.append(s.as_str()),
        None => out.append("(none)"),
    }
    out.append("\n");
    assert(out@ =~= start + artwork_text(a.deep_view().image, a.deep_view().banner));
}

fn append_streaming(out: &mut String, streaming: &Vec<AnimeStreaming>)
    ensures
        final(out)@ == old(out)@ + streaming_text(streaming.deep_view()),
{
    let ghost start = out@;
    let ghost v = streaming.deep_view();
    out.append("|-- Streaming (");
    out.append(u64_to_decimal(streaming.len() as u64).as_str());
    out.append(")\n");
    let ghost head = out@;
    if streaming.len() == 0 {
        out.append("|   (none)\n");
    } else {
        let mut i: usize = 0;
        while i < streaming.len()
            invariant
                v == streaming.deep_view(),
                0 <= i <= v.len(),
                out@ == head + streaming_items(v.take(i as int)),
            decreases v.len() - i,
        {
            let s = &streaming[i];
            out.append("|   - ");
            out.append(s.name.as_str());
            out.append(": ");
            out.append(s.url.as_str());
            out.append("\n");
            out.append("|     Logo: ");
            out.append(s.logo.as_str());
            out.append("\n");
            assert(v.take(i + 1).drop_last() =~= v.take(i as int));
            assert(out@ =~= head + streaming_items(v.take(i + 1)));
            i += 1;
        }
        assert(v.take(i as int) =~= v);
    }
    assert(out@ =~= start + streaming_text(v));
}

fn append_sites(out: &mut String, sites: &Vec<AnimeSite>)
    ensures
        final(out)@ == old(out)@ + sites_text(sites.deep_view()),
{
    let ghost start = out@;
    let ghost v = sites.deep_view();
    out.append("`-- Sites (");
    out.append(u64_to_decimal(sites.len() as u64).as_str());
    out.append(")\n");
    let ghost head = out@;
    if sites.len() == 0 {
        out.append("    (none)\n");
    } else {
        let mut i: usize = 0;
        while i < sites.len()
            invariant
                v == sites.deep_view(),
                0 <= i <= v.len(),
                out@ == head + site_items(v.take(i as int)),
            decreases v.len() - i,
        {
            out.append("    - ");
            out.append(sites[i].title.as_str());
            out.append(": ");
            out.append(sites[i].url.as_str());
            out.append("\n");
            assert(v.take(i + 1).drop_last() =~= v.take(i as int));
            assert(out@ =~= head + site_items(v.take(i + 1)));
            i += 1;
        }
        assert(v.take(i as int) =~= v);
    }
    assert(out@ =~= start + sites_text(v));
}

impl Anime {
    /// The card of the show, as the command line prints it.
    pub fn render(&self) -> (s: String)
        ensures
            s@ == anime_text(self.deep_view()),
    {
        let mut s = String::new();
        append_head(&mut s, self);
        append_airing(&mut s, self);
        append_description(&mut s, self);
        append_artwork(&mut s, self);
        write_string_list(&mut s, "Cast", &self.cast);
        write_string_list(&mut s, "Genres", &self.genres);
        append_streaming(&mut s, &self.streaming);
        append_sites(&mut s, &self.site);
        assert(s@ =~= anime_text(self.deep_view()));
        s
    }
}

} // verus!
