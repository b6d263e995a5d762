//! The in-game help pages and their table of contents.

use vstd::prelude::*;
use vstd::string::StringExecFns;
use vstd::utf8::is_ascii_chars;
use crate::console::{Color, Console, DrawStep, KEY_DOWN, KEY_UP};
use crate::text::{
    dec_str, lemma_dec_str_len_bound, pow10, repeat_char, repeated, u64_to_string,
};

verus! {

/// Number of help pages.
pub const PAGE_COUNT: u32 = 6;

/// How deep a heading sits in the table of contents.
#[derive(Debug, Clone, Copy, PartialEq, Eq, Structural)]
pub enum SectionLayer {
    Section(u32),
    SubSection(u32, u32),
    SubSubSection(u32, u32, u32),
}

impl SectionLayer {
    /// The color its depth gives a heading.
    pub fn get_heading_color(&self) -> (c: Color)
        ensures
            c == match *self {
                SectionLayer::Section(_) => Color::Blue,
                SectionLayer::SubSection(_, _) => Color::Green,
                SectionLayer::SubSubSection(_, _, _) => Color::Cyan,
            },
    {
        match self {
            Self::Section(_) => Color::Blue,
            Self::SubSection(_, _) => Color::Green,
            Self::SubSubSection(_, _, _) => Color::Cyan,
        }
    }
}

/// Every character of a rendered number is a digit, hence ASCII.
pub proof fn lemma_dec_str_ascii(n: int)
    requires
        n >= 0,
    ensures
        is_ascii_chars(dec_str(n)),
    decreases n,
{
    if n < 10 {
        assert(forall|i| 0 <= i < dec_str(n).len() ==> '\0' <= #[trigger] dec_str(n)[i]
            <= '\u{7f}');
    } else {
        lemma_dec_str_ascii(n / 10);
        assert(forall|i| 0 <= i < dec_str(n).len() ==> '\0' <= #[trigger] dec_str(n)[i]
            <= '\u{7f}');
    }
}

/// The text of a heading: its dotted section numbers, indented two columns
/// per depth beyond the first, then the section's name.
pub open spec fn heading_text(layer: SectionLayer, name: Seq<char>) -> Seq<char> {
    match layer {
        SectionLayer::Section(a) => dec_str(a as int) + " "@ + name,
        SectionLayer::SubSection(a, b) => "  "@ + dec_str(a as int) + "."@ + dec_str(b as int)
            + " "@ + name,
        SectionLayer::SubSubSection(a, b, c) => "      "@ + dec_str(a as int) + "."@ + dec_str(
            b as int,
        ) + "."@ + dec_str(c as int) + " "@ + name,
    }
}

/// The two recorded steps of one table-of-contents row `width` columns wide:
/// the heading in its depth's color, then the text with dots up to the
/// right-aligned page number.
pub open spec fn section_row_steps(
    layer: SectionLayer,
    name: Seq<char>,
    page_number: u32,
    width: int,
) -> Seq<DrawStep> {
    let heading = heading_text(layer, name);
    let page = dec_str(page_number + 1);
    let dots = if width >= heading.len() + page.len() {
        width - heading.len() - page.len()
    } else {
        0
    };
    seq![
        DrawStep::SetColor(
            match layer {
                SectionLayer::Section(_) => Color::Blue,
                SectionLayer::SubSection(_, _) => Color::Green,
                SectionLayer::SubSubSection(_, _, _) => Color::Cyan,
            },
            Color::Default,
        ),
        DrawStep::Text(heading + repeated('.', dots) + page),
    ]
}

/// One entry of the table of contents.
pub struct Section {
    layer: SectionLayer,
    name: String,
    page: u32,
}

impl Section {
    /// The heading's depth and numbers.
    pub closed spec fn spec_layer(&self) -> SectionLayer {
        self.layer
    }

    /// The heading's name.
    pub closed spec fn spec_name(&self) -> Seq<char> {
        self.name@
    }

    /// The page the heading starts on.
    pub closed spec fn spec_page(&self) -> u32 {
        self.page
    }

    /// A short ASCII name fits a table-of-contents row.
    #[verifier::type_invariant]
    pub closed spec fn wf(&self) -> bool {
        &&& self.spec_name().len() <= 64
        &&& is_ascii_chars(self.spec_name())
    }

    /// Bundles a heading.
    pub fn new(layer: SectionLayer, name: String, page: u32) -> (r: Self)
        requires
            name@.len() <= 64,
            is_ascii_chars(name@),
        ensures
            r.spec_layer() == layer,
            r.spec_name() == name@,
            r.spec_page() == page,
    {
        Self { layer, name, page }
    }

    /// Records one table-of-contents row `width` columns wide: the heading in
    /// its depth's color, dots up to the right edge, and the page number.
    pub fn draw(&self, console: &mut Console, width: usize)
        ensures
            final(console)@ == old(console)@ + section_row_steps(
                self.spec_layer(),
                self.spec_name(),
                self.spec_page(),
                width as int,
            ),
    {
        proof {
            use_type_invariant(self);
            broadcast use vstd::string::is_ascii_spec_bytes;

        }
        let color = self.layer.get_heading_color();
        console.set_color(color, Color::Default);

        let mut heading: String = String::new();
        match self.layer {
            SectionLayer::Section(section) => {
                let number = u64_to_string(section as u64);
                heading.append(number.as_str());
                heading.append(" ");
            },
            SectionLayer::SubSection(section, sub_section) => {
                heading.append("  ");
                let number = u64_to_string(section as u64);
                heading.append(number.as_str());
                heading.append(".");
                let number = u64_to_string(sub_section as u64);
                heading.append(number.as_str());
                heading.append(" ");
            },
            SectionLayer::SubSubSection(section, sub_section, sub_sub_section) => {
                heading.append("      ");
                let number = u64_to_string(section as u64);
                heading.append(number.as_str());
                heading.append(".");
                let number = u64_to_string(sub_section as u64);
                heading.append(number.as_str());
                heading.append(".");
                let number = u64_to_string(sub_sub_section as u64);
                heading.append(number.as_str());
                heading.append(" ");
            },
        }
        heading.append(self.name.as_str());

        proof {
            assert(pow10(10) == 10000000000) by {
                reveal_with_fuel(pow10, 11);
            }
            match self.spec_layer() {
                SectionLayer::Section(a) => {
                    lemma_dec_str_ascii(a as int);
                    lemma_dec_str_len_bound(a as int, 10);
                    assert(heading@ =~= heading_text(self.spec_layer(), self.spec_name()));
                },
                SectionLayer::SubSection(a, b) => {
                    lemma_dec_str_ascii(a as int);
                    lemma_dec_str_ascii(b as int);
                    lemma_dec_str_len_bound(a as int, 10);
                    lemma_dec_str_len_bound(b as int, 10);
                    assert(heading@ =~= heading_text(self.spec_layer(), self.spec_name()));
                },
                SectionLayer::SubSubSection(a, b, c) => {
                    lemma_dec_str_ascii(a as int);
                    lemma_dec_str_ascii(b as int);
                    lemma_dec_str_ascii(c as int);
                    lemma_dec_str_len_bound(a as int, 10);
                    lemma_dec_str_len_bound(b as int, 10);
                    lemma_dec_str_len_bound(c as int, 10);
                    assert(heading@ =~= heading_text(self.spec_layer(), self.spec_name()));
                },
            }
            reveal_strlit(" ");
            reveal_strlit(".");
            reveal_strlit("  ");
            reveal_strlit("      ");
            assert(is_ascii_chars(heading@)) by {
                assert(forall|i| 0 <= i < heading@.len() ==> '\0' <= #[trigger] heading@[i]
                    <= '\u{7f}');
            }
        }
        let heading_str = heading.as_str();
        proof {
            assert(vstd::string::is_ascii(heading_str));
        }
        let heading_len = heading_str.len();

        let page = u64_to_string((self.page as u64) + 1);
        proof {
            lemma_dec_str_ascii(self.spec_page() + 1);
            assert(pow10(11) == 100000000000) by {
                reveal_with_fuel(pow10, 12);
            }
            lemma_dec_str_len_bound(self.spec_page() + 1, 11);
        }
        let page_str = page.as_str();
        proof {
            assert(vstd::string::is_ascii(page_str));
        }
        let page_len = page_str.len();

        let dots = match heading_len.checked_add(page_len) {
            Some(used) => if width >= used {
                width - used
            } else {
                0
            },
            None => 0,
        };

        let mut line = heading;
        let filler = repeat_char('.', dots);
        line.append(filler.as_str());
        line.append(page.as_str());

        console.draw_text(line.as_str());

        proof {
            broadcast use vstd::string::is_ascii_spec_bytes;

            let heading_s = heading_text(self.spec_layer(), self.spec_name());
            let page_s = dec_str(self.spec_page() + 1);
            let dots_s: int = if width >= heading_s.len() + page_s.len() {
                width - heading_s.len() - page_s.len()
            } else {
                0
            };
            assert(line@ =~= heading_s + repeated('.', dots_s) + page_s);
            assert(console@ =~= old(console)@ + seq![
                DrawStep::SetColor(color, Color::Default),
                DrawStep::Text(heading_s + repeated('.', dots_s) + page_s),
            ]);
        }
    }
}

/// The drawing steps of the first `n` shown headings of a table-of-contents
/// page that starts at heading `start`: for each a cursor move to its row and
/// then its heading row.
pub open spec fn toc_steps(
    sections: Seq<Section>,
    start: int,
    n: int,
    x: int,
    y: int,
    width: int,
) -> Seq<DrawStep>
    decreases n,
{
    if n <= 0 {
        Seq::empty()
    } else {
        toc_steps(sections, start, n - 1, x, y, width) + seq![
            DrawStep::SetCursorPos(x, y + n - 1),
        ] + section_row_steps(
            sections[start + n - 1].spec_layer(),
            sections[start + n - 1].spec_name(),
            sections[start + n - 1].spec_page(),
            width,
        )
    }
}

/// The clickable list of headings on the first help page.
pub struct TableOfContents {
    next_section: u32,
    next_sub_section: u32,
    next_sub_sub_section: u32,

    sections: Vec<Section>,
}

impl TableOfContents {
    /// The numbering the next heading of each depth would get.
    pub closed spec fn spec_counters(&self) -> (u32, u32, u32) {
        (self.next_section, self.next_sub_section, self.next_sub_sub_section)
    }

    /// The headings in order.
    pub closed spec fn spec_sections(&self) -> Seq<Section> {
        self.sections@
    }

    /// An empty table of contents.
    pub fn new() -> (r: Self)
        ensures
            r.spec_counters() == (0u32, 0u32, 0u32),
            r.spec_sections().len() == 0,
    {
        Self { next_section: 0, next_sub_section: 0, next_sub_sub_section: 0, sections: Vec::new() }
    }

    /// Appends a top-level heading and restarts the deeper numbering.
    pub fn add_section(&mut self, name: String, page: u32)
        requires
            name@.len() <= 64,
            is_ascii_chars(name@),
            old(self).spec_counters().0 < u32::MAX,
        ensures
            final(self).spec_counters() == (
                (old(self).spec_counters().0 + 1) as u32,
                0u32,
                0u32,
            ),
            final(self).spec_sections().len() == old(self).spec_sections().len() + 1,
            final(self).spec_sections().drop_last() == old(self).spec_sections(),
            final(self).spec_sections().last().spec_layer() == SectionLayer::Section(
                (old(self).spec_counters().0 + 1) as u32,
            ),
            final(self).spec_sections().last().spec_name() == name@,
            final(self).spec_sections().last().spec_page() == page,
    {
        self.next_section = self.next_section + 1;
        self.next_sub_section = 0;
        self.next_sub_sub_section = 0;

        self.sections.push(Section::new(SectionLayer::Section(self.next_section), name, page));

        proof {
            assert(final(self).spec_sections().drop_last() =~= old(self).spec_sections());
        }
    }

    /// Appends a second-level heading under the current top-level one.
    pub fn add_sub_section(&mut self, name: String, page: u32)
        requires
            name@.len() <= 64,
            is_ascii_chars(name@),
            old(self).spec_counters().1 < u32::MAX,
        ensures
            final(self).spec_counters() == (
                old(self).spec_counters().0,
                (old(self).spec_counters().1 + 1) as u32,
                0u32,
            ),
            final(self).spec_sections().len() == old(self).spec_sections().len() + 1,
            final(self).spec_sections().drop_last() == old(self).spec_sections(),
            final(self).spec_sections().last().spec_layer() == SectionLayer::SubSection(
                old(self).spec_counters().0,
                (old(self).spec_counters().1 + 1) as u32,
            ),
            final(self).spec_sections().last().spec_name() == name@,
            final(self).spec_sections().last().spec_page() == page,
    {
        self.next_sub_section = self.next_sub_section + 1;
        self.next_sub_sub_section = 0;

        self.sections.push(
            Section::new(
                SectionLayer::SubSection(self.next_section, self.next_sub_section),
                name,
                page,
            ),
        );

        proof {
            assert(final(self).spec_sections().drop_last() =~= old(self).spec_sections());
        }
    }

    /// Appends a third-level heading under the current second-level one.
    pub fn add_sub_sub_section(&mut self, name: String, page: u32)
        requires
            name@.len() <= 64,
            is_ascii_chars(name@),
            old(self).spec_counters().2 < u32::MAX,
        ensures
            final(self).spec_counters() == (
                old(self).spec_counters().0,
                old(self).spec_counters().1,
                (old(self).spec_counters().2 + 1) as u32,
            ),
            final(self).spec_sections().len() == old(self).spec_sections().len() + 1,
            final(self).spec_sections().drop_last() == old(self).spec_sections(),
            final(self).spec_sections().last().spec_layer() == SectionLayer::SubSubSection(
                old(self).spec_counters().0,
                old(self).spec_counters().1,
                (old(self).spec_counters().2 + 1) as u32,
            ),
            final(self).spec_sections().last().spec_name() == name@,
            final(self).spec_sections().last().spec_page() == page,
    {
        self.next_sub_sub_section = self.next_sub_sub_section + 1;

        self.sections.push(
            Section::new(
                SectionLayer::SubSubSection(
                    self.next_section,
                    self.next_sub_section,
                    self.next_sub_sub_section,
                ),
                name,
                page,
            ),
        );

        proof {
            assert(final(self).spec_sections().drop_last() =~= old(self).spec_sections());
        }
    }

    /// Records the rows of page `page`, `height` headings per page, each
    /// `width` columns wide, starting at `(x, y)`: a cursor move and a
    /// heading row per shown section, then a color reset.
    pub fn draw(
        &self,
        console: &mut Console,
        x: usize,
        y: usize,
        width: usize,
        height: usize,
        page: u32,
    )
        ensures
            ({
                let start = height * (page as int);
                let len = self.spec_sections().len() as int;
                let shown = if start >= len {
                    0
                } else if len - start < height {
                    len - start
                } else {
                    height as int
                };
                if start <= usize::MAX && (shown == 0 || y + shown - 1 <= usize::MAX) {
                    final(console)@ == old(console)@ + toc_steps(
                        self.spec_sections(),
                        start,
                        shown,
                        x as int,
                        y as int,
                        width as int,
                    ) + seq![DrawStep::ResetColor]
                } else {
                    final(console)@ == old(console)@
                }
            }),
    {
        let start = match height.checked_mul(page as usize) {
            Some(s) => s,
            None => { return },
        };

        let len = self.sections.len();
        let shown = if start >= len {
            0
        } else if len - start < height {
            len - start
        } else {
            height
        };

        if shown > 0 && y > usize::MAX - (shown - 1) {
            // Rows beyond the machine range are not drawn.
            return;
        }

        let mut i: usize = 0;
        while i < shown
            invariant
                shown <= height,
                shown == 0 || start + shown <= self.spec_sections().len(),
                shown == 0 || start + shown <= usize::MAX,
                shown == 0 || y + shown - 1 <= usize::MAX,
                i <= shown,
                console@ == old(console)@ + toc_steps(
                    self.spec_sections(),
                    start as int,
                    i as int,
                    x as int,
                    y as int,
                    width as int,
                ),
            decreases shown - i,
        {
            console.set_cursor_pos(x, y + i);
            self.sections[start + i].draw(console, width);
            i += 1;
            proof {
                assert(console@ =~= old(console)@ + toc_steps(
                    self.spec_sections(),
                    start as int,
                    i as int,
                    x as int,
                    y as int,
                    width as int,
                ));
            }
        }

        console.reset_color();
    }

    /// The page of the heading shown on row `row` of table-of-contents page
    /// `page` when `height` headings fit one page.
    pub fn get_page_mouse_clicked(&self, height: usize, page: u32, row: u32) -> (r: Option<u32>)
        ensures
            ({
                let idx = height * (page as int) + row;
                if 0 <= idx < self.spec_sections().len() && idx <= usize::MAX {
                    r == Some(self.spec_sections()[idx].spec_page())
                } else {
                    r is None
                }
            }),
    {
        let base = match height.checked_mul(page as usize) {
            Some(b) => b,
            None => { return None },
        };
        let index = match base.checked_add(row as usize) {
            Some(i) => i,
            None => { return None },
        };
        if index < self.sections.len() {
            Some(self.sections[index].page)
        } else {
            None
        }
    }
}

/// The help pages: a clickable table of contents and five pages of text.
pub struct HelpPage {
    table_of_contents: TableOfContents,

    page: u32,
}

impl HelpPage {
    /// The page currently shown.
    pub closed spec fn spec_page(&self) -> u32 {
        self.page
    }

    /// Builds the fixed table of contents and opens it.
    pub fn new() -> (r: Self)
        ensures
            r.spec_page() == 0,
    {
        proof {
            reveal_strlit("Control");
            reveal_strlit("Keyboard");
            reveal_strlit("Help menu");
            reveal_strlit("Exit window");
            reveal_strlit("Start menu");
            reveal_strlit("Game control");
            reveal_strlit("Mouse input");
            reveal_strlit("Console arguments");
            reveal_strlit("Menus");
            reveal_strlit("Game screen");
            reveal_strlit("Gameplay");
            reveal_strlit("Play");
            reveal_strlit("Game over");
        }
        let mut table_of_contents = TableOfContents::new();
        table_of_contents.add_section(String::from_str("Control"), 1);
        table_of_contents.add_sub_section(String::from_str("Keyboard"), 1);
        table_of_contents.add_sub_sub_section(String::from_str("Help menu"), 1);
        table_of_contents.add_sub_sub_section(String::from_str("Exit window"), 1);
        table_of_contents.add_sub_sub_section(String::from_str("Start menu"), 1);
        table_of_contents.add_sub_sub_section(String::from_str("Game control"), 1);
        table_of_contents.add_sub_section(String::from_str("Mouse input"), 2);
        table_of_contents.add_sub_sub_section(String::from_str("Help menu"), 2);
        table_of_contents.add_sub_sub_section(String::from_str("Exit window"), 2);
        table_of_contents.add_sub_sub_section(String::from_str("Start menu"), 3);
        table_of_contents.add_section(String::from_str("Console arguments"), 3);
        table_of_contents.add_section(String::from_str("Menus"), 4);
        table_of_contents.add_sub_section(String::from_str("Help menu"), 4);
        table_of_contents.add_sub_section(String::from_str("Exit window"), 4);
        table_of_contents.add_sub_section(String::from_str("Game screen"), 4);
        table_of_contents.add_section(String::from_str("Gameplay"), 5);
        table_of_contents.add_sub_section(String::from_str("Play"), 5);
        table_of_contents.add_sub_section(String::from_str("Game over"), 5);

        Self { table_of_contents, page: 0 }
    }

    /// Records the current help page on a `width` by `height` console.
    pub fn draw(&self, console: &mut Console, width: usize, height: usize) {
        if height < 5 {
            return;
        }

        console.set_color(Color::Yellow, Color::Default);
        console.set_underline(true);
        console.draw_text("Help menu");

        console.set_cursor_pos(0, 2);
        if self.page == 0 {
            console.set_underline(false);
            self.table_of_contents.draw(console, 0, 2, width, height - 4, self.page);
        } else if self.page == 1 {
            console.set_color(Color::Blue, Color::Default);
            console.draw_text("1 Control\n");

            console.set_color(Color::Green, Color::Default);
            console.draw_text("1.1 Keyboard\n");

            console.set_underline(false);
            console.set_color(Color::LightRed, Color::Default);
            console.draw_text("F1");
            console.reset_color();
            console.draw_text(": Open help menu");

            console.set_underline(true);
            console.set_color(Color::Cyan, Color::Default);
            console.set_cursor_pos(0, 6);
            console.draw_text("1.1.1 Help menu\n");

            console.set_underline(false);
            console.set_color(Color::LightRed, Color::Default);
            console.draw_text("ESC");
            console.reset_color();
            console.draw_text("/");
            console.set_color(Color::LightRed, Color::Default);
            console.draw_text("F1");
            console.reset_color();
            console.draw_text(": Exit help menu\n");

            console.set_color(Color::LightRed, Color::Default);
            console.draw_text("UP");
            console.reset_color();
            console.draw_text("/");
            console.set_color(Color::LightRed, Color::Default);
            console.draw_text("DOWN");
            console.reset_color();
            console.draw_text(": Switch page");

            console.set_underline(true);
            console.set_color(Color::Cyan, Color::Default);
            console.set_cursor_pos(0, 10);
            console.draw_text("1.1.2 Exit window\n");

            console.set_underline(false);
            console.set_color(Color::LightRed, Color::Default);
            console.draw_text("y");
            console.reset_color();
            console.draw_text("/");
            console.set_color(Color::LightRed, Color::Default);
            console.draw_text("n");
            console.reset_color();
            console.draw_text(": Yes (Exit)/No (Not exit)");

            console.set_underline(true);
            console.set_color(Color::Cyan, Color::Default);
            console.set_cursor_pos(0, 13);
            console.draw_text("1.1.3 Start menu\n");

            console.set_underline(false);
            console.set_color(Color::LightRed, Color::Default);
            console.draw_text("ENTER");
            console.reset_color();
            console.draw_text(": Start game/Next Level\n");

            console.set_color(Color::LightRed, Color::Default);
            console.draw_text("ESC");
            console.reset_color();
            console.draw_text(": Exit window");

            console.set_underline(true);
            console.set_color(Color::Cyan, Color::Default);
            console.set_cursor_pos(0, 17);
            console.draw_text("1.1.4 Game control\n");

            console.set_underline(false);
            console.set_color(Color::LightRed, Color::Default);
            console.draw_text("Arrow keys");
            console.reset_color();
            console.draw_text(": Move position\n");
            console.set_color(Color::LightRed, Color::Default);
            console.draw_text("r");
            console.reset_color();
            console.draw_text(": Reset level\n");
            console.set_underline(false);
            console.set_color(Color::LightRed, Color::Default);
            console.draw_text("z");
            console.reset_color();
            console.draw_text(": One step back/forward");
        } else if self.page == 2 {
            console.set_color(Color::Green, Color::Default);
            console.draw_text("1.2 Mouse input\n");

            console.set_underline(false);
            console.reset_color();
            console.draw_text("Left click: [");
            console.set_color(Color::Default, Color::Yellow);
            console.draw_text("L");
            console.reset_color();
            console.draw_text("] \"Position\"\n");
            console.draw_text("Right click: [");
            console.set_color(Color::Default, Color::Yellow);
            console.draw_text("R");
            console.reset_color();
            console.draw_text("] \"Position\"\n");
            console.draw_text("Middle click: [");
            console.set_color(Color::Default, Color::Yellow);
            console.draw_text("M");
            console.reset_color();
            console.draw_text("] \"Position\"");

            console.set_underline(true);
            console.set_color(Color::Cyan, Color::Default);
            console.set_cursor_pos(0, 7);
            console.draw_text("1.2.1 Help menu\n");

            console.set_underline(false);
            console.reset_color();
            console.draw_text("[");
            console.set_color(Color::Default, Color::Yellow);
            console.draw_text("L");
            console.reset_color();
            console.draw_text("] \"Page: 00\": Switch page (The same as ");
            console.set_color(Color::LightRed, Color::Default);
            console.draw_text("DOWN");
            console.reset_color();
            console.draw_text(")\n[");
            console.set_color(Color::Default, Color::Yellow);
            console.draw_text("L");
            console.reset_color();
            console.draw_text("] Chapter at first pages: Goto page");

            console.set_underline(true);
            console.set_color(Color::Cyan, Color::Default);
            console.set_cursor_pos(0, 11);
            console.draw_text("1.2.2 Exit window\n");

            console.set_underline(false);
            console.reset_color();
            console.draw_text("[");
            console.set_color(Color::Default, Color::Yellow);
            console.draw_text("L");
            console.reset_color();
            console.draw_text("] \"[y]es\": Yes (The same as ");
            console.set_color(Color::LightRed, Color::Default);
            console.draw_text("y");
            console.reset_color();
            console.draw_text(")\n[");
            console.set_color(Color::Default, Color::Yellow);
            console.draw_text("L");
            console.reset_color();
            console.draw_text("] \"[n]o\": No (The same as ");
            console.set_color(Color::LightRed, Color::Default);
            console.draw_text("n");
            console.reset_color();
            console.draw_text(")");

            console.set_underline(true);
            console.set_color(Color::Cyan, Color::Default);
            console.set_cursor_pos(0, 15);
            console.draw_text("1.2.3 Start menu\n");

            console.set_underline(false);
            console.reset_color();
            console.draw_text("[");
            console.set_color(Color::Default, Color::Yellow);
            console.draw_text("L");
            console.reset_color();
            console.draw_text("] \"ENTER\": Start game (The same as ");
            console.set_color(Color::LightRed, Color::Default);
            console.draw_text("ENTER");
            console.reset_color();
            console.draw_text(")\n[");
            console.set_color(Color::Default, Color::Yellow);
            console.draw_text("L");
            console.reset_color();
            console.draw_text("] \"Help: F1\": Open help menu (The same as ");
            console.set_color(Color::LightRed, Color::Default);
            console.draw_text("F1");
            console.reset_color();
            console.draw_text(")");
        } else if self.page == 3 {
            console.set_color(Color::Blue, Color::Default);
            console.draw_text("2 Console arguments\n");

            console.set_underline(false);
            console.reset_color();
            console.draw_text("1) No arguments\n2) \"Path to level pack 1\" \"Path to level pack 2\" ...");
        } else if self.page == 4 {
            console.set_color(Color::Blue, Color::Default);
            console.draw_text("3 Menus\n");
            console.set_color(Color::Green, Color::Default);
            console.draw_text("3.1 Help menu\n");

            console.set_underline(false);
            console.reset_color();
            console.draw_text("\"Page: x of y\": x: (Current page), y: (Last page)\n\"");
            console.set_color(Color::Blue, Color::Default);
            console.set_underline(true);
            console.draw_text("x Title");
            console.set_underline(false);
            console.reset_color();
            console.draw_text("\":     Heading 1 (Chapter Name)\n\"");
            console.set_color(Color::Green, Color::Default);
            console.set_underline(true);
            console.draw_text("x.x Title");
            console.set_underline(false);
            console.reset_color();
            console.draw_text("\":   Heading 2 (Chapter.Chapter Name)\n\"");
            console.set_color(Color::Cyan, Color::Default);
            console.set_underline(true);
            console.draw_text("x.x.x Title");
            console.set_underline(false);
            console.reset_color();
            console.draw_text("\": Heading 3 (Chapter.Chapter.Chapter Name)\n");

            console.set_underline(true);
            console.set_color(Color::Green, Color::Default);
            console.set_cursor_pos(0, 9);
            console.draw_text("3.2 Exit window\n");

            console.set_underline(false);
            console.reset_color();
            console.draw_text("Confirm exit\n");

            console.set_underline(true);
            console.set_color(Color::Green, Color::Default);
            console.set_cursor_pos(0, 12);
            console.draw_text("3.3 Game screen\n");

            console.set_underline(false);

            console.reset_color();
            console.set_cursor_pos(1, 13);
            console.draw_text(
                ": Empty\n       : One way doors\n : Wall\n : Player\n   : Box\n : Goal\n   : Key\n : Locked Door",
            );

            console.set_color(Color::LightBlue, Color::Default);
            console.set_cursor_pos(0, 13);
            console.draw_text("-\n< ^ > v");
            console.set_color(Color::LightGreen, Color::Default);
            console.set_cursor_pos(0, 15);
            console.draw_text("#");
            console.set_color(Color::Yellow, Color::Default);
            console.set_cursor_pos(0, 16);
            console.draw_text("P");
            console.set_color(Color::LightCyan, Color::Default);
            console.set_cursor_pos(0, 17);
            console.draw_text("@");
            console.set_color(Color::Pink, Color::Default);
            console.set_cursor_pos(2, 17);
            console.draw_text("@");
            console.set_color(Color::LightRed, Color::Default);
            console.set_cursor_pos(0, 18);
            console.draw_text("x");
            console.set_color(Color::LightCyan, Color::Default);
            console.set_cursor_pos(0, 19);
            console.draw_text("*");
            console.set_color(Color::Pink, Color::Default);
            console.set_cursor_pos(2, 19);
            console.draw_text("*");
            console.set_color(Color::LightRed, Color::Default);
            console.set_cursor_pos(0, 20);
            console.draw_text("=");
        } else if self.page == 5 {
            console.set_color(Color::Blue, Color::Default);
            console.draw_text("4 Gameplay\n");
            console.set_color(Color::Green, Color::Default);
            console.draw_text("4.1 Game\n");

            console.set_underline(false);
            console.reset_color();
            console.draw_text("Move all boxes to the goals.");

            console.set_underline(true);
            console.set_color(Color::Green, Color::Default);
            console.set_cursor_pos(0, 6);
            console.draw_text("4.2 Game over\n");

            console.set_underline(false);
            console.reset_color();
            console.draw_text("Press ");
            console.set_color(Color::LightRed, Color::Default);
            console.draw_text("ESC");
            console.reset_color();
            console.draw_text(" to left the game (See: ");
            console.set_color(Color::Green, Color::Default);
            console.draw_text("1.1 Keyboard");
            console.reset_color();
            console.draw_text(").");
        }

        console.set_cursor_pos(0, height - 1);
        console.reset_color();
        console.draw_text("Page: ");
        console.set_color(Color::Cyan, Color::Default);
        let number = u64_to_string((self.page as u64) + 1);
        console.draw_text(number.as_str());
        console.reset_color();
        console.draw_text(" of ");
        console.set_color(Color::Cyan, Color::Default);
        console.draw_text("6");
    }

    /// Flips one page back or forward, wrapping around at the ends.
    pub fn on_key_pressed(&mut self, key: i32)
        ensures
            final(self).spec_page() == (if key == KEY_UP {
                if old(self).spec_page() == 0 {
                    (PAGE_COUNT - 1) as u32
                } else {
                    (old(self).spec_page() - 1) as u32
                }
            } else if key == KEY_DOWN {
                if old(self).spec_page() >= PAGE_COUNT - 1 {
                    0u32
                } else {
                    (old(self).spec_page() + 1) as u32
                }
            } else {
                old(self).spec_page()
            }),
    {
        if key == KEY_UP {
            self.page = if self.page == 0 {
                PAGE_COUNT - 1
            } else {
                self.page - 1
            };
        } else if key == KEY_DOWN {
            self.page = if self.page >= PAGE_COUNT - 1 {
                0
            } else {
                self.page + 1
            };
        }
    }

    /// A click on a table-of-contents row jumps to its page; a click on the
    /// page indicator flips forward like the down arrow.
    pub fn on_mouse_pressed(&mut self, width: usize, height: usize, column: usize, row: usize) {
        if row > 2 && height > 2 && row < height - 2 && row - 2 <= u32::MAX as usize {
            match self.table_of_contents.get_page_mouse_clicked(
                height,
                self.page,
                (row - 2) as u32,
            ) {
                Some(page_clicked) => {
                    if page_clicked < PAGE_COUNT {
                        self.page = page_clicked;
                    }
                },
                None => {},
            }
        }

        if height >= 1 && row == height - 1 && column < 8 {
            self.on_key_pressed(KEY_DOWN);
        }
    }
}

} // verus!
