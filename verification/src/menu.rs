//! The menu in front of the game: a banner, three options, and the keys
//! that move between them.

use vstd::prelude::*;
use vstd::string::StringExecFns;
use vstd::utf8::encode_utf8;
use crate::cursor::{Command, CursorMovement, CursorState};
use crate::screen::{joined, printed, Key, Screen, ScreenState};
use crate::Position;

verus! {

/// How many lines the banner has.
pub const BANNER_LINES: usize = 14;

/// The text attribute that underlines.
pub const UNDERLINE: u16 = 4;

/// The text attribute that ends underlining.
pub const NO_UNDERLINE: u16 = 24;

/// The text attribute that ends all others.
pub const PLAIN: u16 = 0;

/// The line of the banner with the given number, counted from zero.
pub open spec fn banner(index: usize) -> Seq<char> {
    match index {
        0 => "                                                        "@,
        1 => "  .--.--.                                ,-.            "@,
        2 => " /  /    '.                          ,--/ /|            "@,
        3 => "|  :  /`. /      ,---,             ,--. :/ |            "@,
        4 => ";  |  |--`   ,-+-. /  |            :  : ' /             "@,
        5 => "|  :  ;_    ,--.'|'   |  ,--.--.   |  '  /      ,---.   "@,
        6 => " \\  \\    `.|   |  , ' | /       \\  '  |  :     /     \\  "@,
        7 => "  `----.   \\   | /  | |.--.  .-. | |  |   \\   /    /  | "@,
        8 => "  __ \\  \\  |   | |  | | \\__\\/: . . '  : |. \\ .    ' / | "@,
        9 => " /  /`--'  /   | |  |/  ,  .--.; | |  | ' \\ \\'   ;   /| "@,
        10 => "'--'.     /|   | |--'  /  /  ,.  | '  : |--' '   |  / | "@,
        11 => "  `--'---' |   |/     ;  :   .'   \\;  |,'    |   :    | "@,
        12 => "           '---'      |  ,     .-./'--'       \\   \\  /  "@,
        _ => "                       `--`---'                `----'   "@,
    }
}

/// The line of the banner with the given number, counted from zero.
pub fn banner_line(index: usize) -> (line: &'static str)
    requires
        index < BANNER_LINES,
    ensures
        line@ == banner(index),
{
    match index {
        0 => "                                                        ",
        1 => "  .--.--.                                ,-.            ",
        2 => " /  /    '.                          ,--/ /|            ",
        3 => "|  :  /`. /      ,---,             ,--. :/ |            ",
        4 => ";  |  |--`   ,-+-. /  |            :  : ' /             ",
        5 => "|  :  ;_    ,--.'|'   |  ,--.--.   |  '  /      ,---.   ",
        6 => " \\  \\    `.|   |  , ' | /       \\  '  |  :     /     \\  ",
        7 => "  `----.   \\   | /  | |.--.  .-. | |  |   \\   /    /  | ",
        8 => "  __ \\  \\  |   | |  | | \\__\\/: . . '  : |. \\ .    ' / | ",
        9 => " /  /`--'  /   | |  |/  ,  .--.; | |  | ' \\ \\'   ;   /| ",
        10 => "'--'.     /|   | |--'  /  /  ,.  | '  : |--' '   |  / | ",
        11 => "  `--'---' |   |/     ;  :   .'   \\;  |,'    |   :    | ",
        12 => "           '---'      |  ,     .-./'--'       \\   \\  /  ",
        _ => "                       `--`---'                `----'   ",
    }
}

/// The line the banner starts on.
pub const BANNER_TOP: u16 = 1;

/// A length as a number of columns; one that is too large to be such a
/// number counts as none.
pub open spec fn clipped(length: nat) -> u16 {
    if length <= u16::MAX {
        length as u16
    } else {
        0
    }
}

/// The column at which a text of `text_width` columns starts so that it
/// stands in the middle of `width` columns. A text wider than that starts
/// at the first column.
pub open spec fn centered(width: u16, text_width: u16) -> u16 {
    if width >= text_width {
        ((width - text_width) / 2) as u16
    } else {
        0
    }
}

/// The number of bytes that `text` takes in UTF-8, as the machine counts
/// them.
pub open spec fn byte_length(text: Seq<char>) -> usize {
    encode_utf8(text).len() as usize
}

/// The number of bytes of the longest of the first `count` lines of the
/// banner.
pub open spec fn widest(count: nat) -> usize
    decreases count,
{
    if count == 0 {
        0
    } else {
        let rest = widest((count - 1) as nat);
        let last = byte_length(banner((count - 1) as usize));
        if last > rest {
            last
        } else {
            rest
        }
    }
}

/// The column at which a text of `length` bytes starts on a screen of
/// `width` columns.
pub fn start_column(width: u16, length: usize) -> (column: u16)
    ensures
        column == centered(width, clipped(length as nat)),
{
    let text_width: u16 = if length <= u16::MAX as usize {
        length as u16
    } else {
        0
    };
    width.saturating_sub(text_width) / 2
}

/// The number of bytes of the longest line of the banner.
pub fn banner_width() -> (width: usize)
    ensures
        width == widest(BANNER_LINES as nat),
{
    let mut width: usize = 0;
    let mut i: usize = 0;
    while i < BANNER_LINES
        invariant
            i <= BANNER_LINES,
            width == widest(i as nat),
        decreases BANNER_LINES - i,
    {
        let length = banner_line(i).len();
        if length > width {
            width = length;
        }
        i += 1;
    }
    width
}

/// One entry of the menu: its text and the cell its text starts on.
#[derive(Debug)]
pub struct MenuOption {
    pub text: String,
    pub start_position: Position,
}

impl MenuOption {
    /// An entry that has not been drawn: its text starts on the origin.
    pub fn new(text: String) -> (option: MenuOption)
        ensures
            option.text == text,
            option.start_position == (Position { line: 0, column: 0, boundaries: None }),
    {
        MenuOption { text, start_position: Position::default() }
    }

    pub fn new_with_position(text: String, start: Position) -> (option: MenuOption)
        ensures
            option == (MenuOption { text, start_position: start }),
    {
        MenuOption { text, start_position: start }
    }

    pub fn set_position(&mut self, position: Position)
        ensures
            *final(self) == (MenuOption { start_position: position, ..*old(self) }),
    {
        self.start_position = position;
    }
}

/// The entries of the menu, from top to bottom.
#[derive(Debug, Clone, Copy, PartialEq, Eq, Hash, Structural)]
pub enum MenuOptionType {
    Play,
    Options,
    Quit,
}

impl MenuOptionType {
    /// The place of the entry, counted from the top and from zero.
    pub open spec fn index(self) -> int {
        match self {
            MenuOptionType::Play => 0,
            MenuOptionType::Options => 1,
            MenuOptionType::Quit => 2,
        }
    }

    /// The entry below; below the last comes the first.
    pub open spec fn spec_next(&self) -> MenuOptionType {
        match self {
            MenuOptionType::Play => MenuOptionType::Options,
            MenuOptionType::Options => MenuOptionType::Quit,
            MenuOptionType::Quit => MenuOptionType::Play,
        }
    }

    /// The entry above; above the first comes the last.
    pub open spec fn spec_prev(&self) -> MenuOptionType {
        match self {
            MenuOptionType::Play => MenuOptionType::Quit,
            MenuOptionType::Options => MenuOptionType::Play,
            MenuOptionType::Quit => MenuOptionType::Options,
        }
    }

    /// The place of the entry, counted from the top and from zero.
    pub fn place(&self) -> (place: usize)
        ensures
            place == self.index(),
    {
        match self {
            MenuOptionType::Play => 0,
            MenuOptionType::Options => 1,
            MenuOptionType::Quit => 2,
        }
    }

    /// The entry below; below the last comes the first.
    #[verifier::when_used_as_spec(spec_next)]
    pub fn next(&self) -> (entry: MenuOptionType)
        ensures
            entry == self.spec_next(),
    {
        match self {
            MenuOptionType::Play => MenuOptionType::Options,
            MenuOptionType::Options => MenuOptionType::Quit,
            MenuOptionType::Quit => MenuOptionType::Play,
        }
    }

    /// The entry above; above the first comes the last.
    #[verifier::when_used_as_spec(spec_prev)]
    pub fn prev(&self) -> (entry: MenuOptionType)
        ensures
            entry == self.spec_prev(),
    {
        match self {
            MenuOptionType::Play => MenuOptionType::Quit,
            MenuOptionType::Options => MenuOptionType::Play,
            MenuOptionType::Quit => MenuOptionType::Options,
        }
    }
}

/// What a key asks of the menu.
#[derive(Debug, Clone, Copy, PartialEq, Eq, Structural)]
pub enum MenuAction {
    /// Stay in the menu.
    Continue,
    /// Play a game, then come back.
    Play,
    /// Leave the menu.
    Quit,
}

/// What handling a key decides before anything is drawn: the entry that is
/// selected afterwards, and what is asked of the caller.
pub open spec fn decision(selected: MenuOptionType, key: Key) -> (MenuOptionType, MenuAction) {
    match key {
        Key::Enter | Key::Char(' ') => match selected {
            MenuOptionType::Play => (selected, MenuAction::Play),
            MenuOptionType::Options => (selected, MenuAction::Continue),
            MenuOptionType::Quit => (selected, MenuAction::Quit),
        },
        Key::Up | Key::Char('k') | Key::Char('w') => (selected.spec_prev(), MenuAction::Continue),
        Key::Down | Key::Char('j') | Key::Char('s') => (selected.spec_next(), MenuAction::Continue),
        Key::Esc | Key::Char('q') => (selected, MenuAction::Quit),
        _ => (selected, MenuAction::Continue),
    }
}

/// The commands that write `text` underlined.
pub open spec fn underlined(text: Seq<char>) -> Seq<Command> {
    seq![Command::Format(UNDERLINE)] + printed(text) + seq![Command::Format(NO_UNDERLINE)]
}

/// The column the entry starts on, on a screen of `width` columns.
pub open spec fn option_column(width: u16, option: MenuOption) -> u16 {
    centered(width, clipped(byte_length(option.text@) as nat))
}

/// The line the entry at `place` stands on: two lines below the banner for
/// the first, and two lines on for every other.
pub open spec fn option_line(place: int) -> int {
    BANNER_TOP + BANNER_LINES + 2 * (place + 1)
}

/// Drawing the banner from `column` on: the part for the line `i`. The line
/// is written, and the cursor is sent back to the column and one line down.
pub open spec fn banner_part(column: u16) -> spec_fn(int) -> Seq<Command> {
    |i: int|
        printed(banner(i as usize)) + seq![
            Command::Jump { line: (BANNER_TOP + i) as u16, column },
            Command::Shift { movement: CursorMovement::Down, offset: 1 },
        ]
}

/// Drawing the entries: the part for the entry at `i`. The cursor goes two
/// lines down and to the entry's column, and the text is written,
/// underlined if the entry is the selected one.
pub open spec fn option_part(width: u16, options: Seq<MenuOption>, selected: MenuOptionType) -> spec_fn(
    int,
) -> Seq<Command> {
    |i: int|
        seq![
            Command::Shift { movement: CursorMovement::Down, offset: 2 },
            Command::Jump {
                line: option_line(i) as u16,
                column: option_column(width, options[i]),
            },
        ] + if selected.index() == i {
            underlined(options[i].text@)
        } else {
            printed(options[i].text@)
        }
}

/// The commands that draw the menu on a cleared screen.
pub open spec fn menu_output(width: u16, options: Seq<MenuOption>, selected: MenuOptionType) -> Seq<
    Command,
> {
    let column = centered(width, clipped(widest(BANNER_LINES as nat) as nat));
    seq![Command::Erase, Command::Jump { line: BANNER_TOP, column }] + joined(
        BANNER_LINES as nat,
        banner_part(column),
    ) + joined(3, option_part(width, options, selected))
}

/// The commands that take the underline off an entry.
pub open spec fn plain_output(option: MenuOption) -> Seq<Command> {
    seq![
        Command::Jump { line: option.start_position.line, column: option.start_position.column },
        Command::Format(PLAIN),
    ] + printed(option.text@)
}

/// The commands that underline an entry.
pub open spec fn highlight_output(option: MenuOption) -> Seq<Command> {
    seq![
        Command::Jump { line: option.start_position.line, column: option.start_position.column },
    ] + underlined(option.text@)
}

/// What a menu holds.
pub struct MenuState {
    pub screen: ScreenState,
    pub options: Seq<MenuOption>,
    pub selected: MenuOptionType,
}

impl MenuState {
    /// The menu has its three entries.
    pub open spec fn wf(self) -> bool {
        self.options.len() == 3
    }

    /// The entries after drawing: each keeps its text and starts where it
    /// was drawn.
    pub open spec fn placed(self, i: int) -> MenuOption {
        MenuOption {
            text: self.options[i].text,
            start_position: Position {
                line: option_line(i) as u16,
                column: option_column(self.screen.width, self.options[i]),
                boundaries: self.screen.cursor.position.boundaries,
            },
        }
    }
}

/// The menu in front of the game.
#[derive(Debug)]
pub struct Menu {
    screen: Screen,
    options: Vec<MenuOption>,
    selected_option: MenuOptionType,
}

impl View for Menu {
    type V = MenuState;

    closed spec fn view(&self) -> MenuState {
        MenuState {
            screen: self.screen@,
            options: self.options@,
            selected: self.selected_option,
        }
    }
}

impl Menu {
    /// The menu has its three entries. Every constructor gives this and
    /// every method keeps it.
    pub open spec fn wf(&self) -> bool {
        self@.wf()
    }

    /// A menu on a fresh screen, prepared for drawing, with the first entry
    /// selected. `size` is the terminal's size as width and height, where
    /// one was measured.
    pub fn new(size: Option<(u16, u16)>) -> (menu: Menu)
        ensures
            menu.wf(),
            menu@.selected == MenuOptionType::Play,
            menu@.options[0].text@ == "New Game"@,
            menu@.options[1].text@ == "Options"@,
            menu@.options[2].text@ == "Quit"@,
            forall|i: int|
                0 <= i < 3 ==> (#[trigger] menu@.options[i]).start_position == (Position {
                    line: 0,
                    column: 0,
                    boundaries: None,
                }),
            menu@.screen.cursor == (CursorState {
                position: Position { line: 0, column: 0, boundaries: None },
                hidden: true,
            }),
            menu@.screen.width == if let Some(measured) = size {
                measured.0
            } else {
                0
            },
            menu@.screen.height == if let Some(measured) = size {
                measured.1
            } else {
                0
            },
            menu@.screen.output == seq![Command::Erase, Command::Hide],
    {
        let mut screen = Screen::new();
        screen.init(size);
        let mut options: Vec<MenuOption> = Vec::new();
        options.push(MenuOption::new(String::from_str("New Game")));
        options.push(MenuOption::new(String::from_str("Options")));
        options.push(MenuOption::new(String::from_str("Quit")));
        let menu = Menu { screen, options, selected_option: MenuOptionType::Play };
        menu
    }

    /// The entry that is selected.
    pub fn selected(&self) -> (selected: MenuOptionType)
        ensures
            selected == self@.selected,
    {
        self.selected_option
    }

    /// The entries, from top to bottom.
    pub fn options(&self) -> (options: &Vec<MenuOption>)
        ensures
            options@ == self@.options,
    {
        &self.options
    }

    /// The screen the menu draws on.
    pub fn screen(&self) -> (screen: &Screen)
        ensures
            screen@ == self@.screen,
    {
        &self.screen
    }

    /// Hands out the commands that are waiting for the terminal.
    pub fn take_output(&mut self) -> (commands: Vec<Command>)
        ensures
            commands@ == old(self)@.screen.output,
            final(self)@ == (MenuState {
                screen: ScreenState { output: Seq::empty(), ..old(self)@.screen },
                ..old(self)@
            }),
    {
        self.screen.take_output()
    }

    /// Writes `text` underlined where the cursor is.
    fn print_underlined(screen: &mut Screen, text: &str)
        ensures
            final(screen)@ == old(screen)@.given(underlined(text@)),
            final(screen)@.cursor == old(screen)@.cursor,
    {
        screen.emit(Command::Format(UNDERLINE));
        screen.print_text(text);
        screen.emit(Command::Format(NO_UNDERLINE));
        proof {
            let on = seq![Command::Format(UNDERLINE)];
            let off = seq![Command::Format(NO_UNDERLINE)];
            old(screen)@.lemma_given_twice(on, printed(text@));
            old(screen)@.lemma_given_twice(on + printed(text@), off);
        }
    }

    /// Draws the menu on a cleared screen: the banner in the middle of the
    /// screen's width, and below it the entries, each in the middle, the
    /// selected one underlined. Every entry remembers where its text starts.
    pub fn draw(&mut self)
        requires
            old(self).wf(),
        ensures
            final(self).wf(),
            final(self)@.selected == old(self)@.selected,
            final(self)@.screen == old(self)@.screen.given(
                menu_output(old(self)@.screen.width, old(self)@.options, old(self)@.selected),
            ),
            forall|i: int| 0 <= i < 3 ==> #[trigger] final(self)@.options[i] == old(self)@.placed(i),
    {
        let ghost origin = old(self)@.screen;
        let (width, _) = self.screen.get_terminal_size();
        self.screen.erase_screen();
        let start_col = start_column(width, banner_width());
        self.screen.jump(BANNER_TOP, start_col);
        let ghost top = seq![Command::Erase, Command::Jump { line: BANNER_TOP, column: start_col }];
        proof {
            origin.lemma_given_twice(
                seq![Command::Erase],
                seq![Command::Jump { line: BANNER_TOP, column: start_col }],
            );
            assert(seq![Command::Erase] + seq![
                Command::Jump { line: BANNER_TOP, column: start_col },
            ] =~= top);
        }
        let ghost topped = origin.given(top);
        proof {
            topped.lemma_given_none();
        }
        let mut i: usize = 0;
        while i < BANNER_LINES
            invariant
                i <= BANNER_LINES,
                self.options == old(self).options,
                self.selected_option == old(self).selected_option,
                topped == origin.given(top),
                self@.screen == topped.given(joined(i as nat, banner_part(start_col))),
                self@.screen.cursor.position.line == BANNER_TOP + i,
                self@.screen.cursor.position.column == start_col,
                self@.screen.cursor.position.boundaries == origin.cursor.position.boundaries,
            decreases BANNER_LINES - i,
        {
            let ghost before = self@.screen;
            self.screen.print_text(banner_line(i));
            self.screen.jump_to_col(start_col);
            self.screen.down(1);
            proof {
                let line = printed(banner(i));
                let back = seq![Command::Jump { line: (BANNER_TOP + i) as u16, column: start_col }];
                let down = seq![Command::Shift { movement: CursorMovement::Down, offset: 1 }];
                before.lemma_given_twice(line, back);
                before.lemma_given_twice(line + back, down);
                assert(line + back + down =~= banner_part(start_col)(i as int));
                topped.lemma_given_part(i as nat, banner_part(start_col));
            }
            i += 1;
        }
        let ghost bannered = self@.screen;
        let ghost entries = old(self)@.options;
        let ghost selected = old(self)@.selected;
        let selected_place = self.selected_option.place();
        proof {
            bannered.lemma_given_none();
        }
        let mut k: usize = 0;
        while k < 3
            invariant
                k <= 3,
                origin == old(self)@.screen,
                width == origin.width,
                entries == old(self)@.options,
                selected == old(self)@.selected,
                entries.len() == 3,
                selected_place == selected.index(),
                self.options@.len() == 3,
                self.selected_option == old(self).selected_option,
                bannered.width == width,
                self@.screen == bannered.given(
                    joined(k as nat, option_part(width, entries, selected)),
                ),
                self@.screen.cursor.position.line == BANNER_TOP + BANNER_LINES + 2 * k,
                self@.screen.cursor.position.boundaries == origin.cursor.position.boundaries,
                forall|j: int| 0 <= j < k ==> #[trigger] self.options@[j] == old(self)@.placed(j),
                forall|j: int| k <= j < 3 ==> #[trigger] self.options@[j] == entries[j],
            decreases 3 - k,
        {
            let ghost before = self@.screen;
            self.screen.down(2);
            let column = start_column(width, self.options[k].text.as_str().len());
            self.screen.jump_to_col(column);
            let ghost text = if selected_place == k {
                underlined(entries[k as int].text@)
            } else {
                printed(entries[k as int].text@)
            };
            if k == selected_place {
                Menu::print_underlined(&mut self.screen, self.options[k].text.as_str());
            } else {
                self.screen.print_text(self.options[k].text.as_str());
            }
            let position = *self.screen.cursor().get_position();
            self.options[k].set_position(position);
            proof {
                let down = seq![Command::Shift { movement: CursorMovement::Down, offset: 2 }];
                let jump = seq![Command::Jump { line: option_line(k as int) as u16, column }];
                before.lemma_given_twice(down, jump);
                before.lemma_given_twice(down + jump, text);
                assert(down + jump + text =~= option_part(width, entries, selected)(k as int));
                bannered.lemma_given_part(k as nat, option_part(width, entries, selected));
            }
            k += 1;
        }
        proof {
            let lines = joined(BANNER_LINES as nat, banner_part(start_col));
            let options = joined(3, option_part(width, entries, selected));
            origin.lemma_given_twice(top, lines);
            origin.lemma_given_twice(top + lines, options);
        }
    }

    /// Underlines the selected entry where it was drawn.
    pub fn highlight_selected(&mut self)
        requires
            old(self).wf(),
        ensures
            final(self)@ == (MenuState {
                screen: old(self)@.screen.given(
                    highlight_output(old(self)@.options[old(self)@.selected.index()]),
                ),
                ..old(self)@
            }),
    {
        let place = self.selected_option.place();
        let position = self.options[place].start_position;
        self.screen.jump(position.line, position.column);
        Menu::print_underlined(&mut self.screen, self.options[place].text.as_str());
        proof {
            old(self)@.screen.lemma_given_twice(
                seq![Command::Jump { line: position.line, column: position.column }],
                underlined(self.options@[place as int].text@),
            );
        }
    }

    /// Clears the screen on the way out of the menu.
    pub fn leave(&mut self)
        ensures
            final(self)@ == (MenuState {
                screen: old(self)@.screen.given(seq![Command::Erase]),
                ..old(self)@
            }),
    {
        self.screen.erase_screen();
    }

    /// Handles a key. The entry that was selected loses its underline. Up
    /// and down, or `k`/`w` and `j`/`s`, move the selection, past either end
    /// to the other; enter or space take the selected entry; escape or `q`
    /// leave. When the menu goes on, the entry now selected is underlined;
    /// when it is left, the screen is cleared; when a game is asked for,
    /// nothing more is drawn.
    pub fn handle_key(&mut self, key: Key) -> (action: MenuAction)
        requires
            old(self).wf(),
        ensures
            final(self).wf(),
            action == decision(old(self)@.selected, key).1,
            final(self)@.selected == decision(old(self)@.selected, key).0,
            final(self)@.options == old(self)@.options,
            final(self)@.screen == old(self)@.screen.given(
                plain_output(old(self)@.options[old(self)@.selected.index()]) + match action {
                    MenuAction::Continue => highlight_output(
                        old(self)@.options[final(self)@.selected.index()],
                    ),
                    MenuAction::Play => Seq::empty(),
                    MenuAction::Quit => seq![Command::Erase],
                },
            ),
    {
        let place = self.selected_option.place();
        let position = self.options[place].start_position;
        self.screen.draw_formatted_text(
            position.line,
            position.column,
            self.options[place].text.as_str(),
            PLAIN,
        );
        let ghost plain = plain_output(old(self)@.options[old(self)@.selected.index()]);
        let action = match key {
            Key::Enter | Key::Char(' ') => match self.selected_option {
                MenuOptionType::Play => MenuAction::Play,
                MenuOptionType::Options => MenuAction::Continue,
                MenuOptionType::Quit => MenuAction::Quit,
            },
            Key::Up | Key::Char('k') | Key::Char('w') => {
                self.selected_option = self.selected_option.prev();
                MenuAction::Continue
            },
            Key::Down | Key::Char('j') | Key::Char('s') => {
                self.selected_option = self.selected_option.next();
                MenuAction::Continue
            },
            Key::Esc | Key::Char('q') => MenuAction::Quit,
            _ => MenuAction::Continue,
        };
        match action {
            MenuAction::Continue => {
                self.highlight_selected();
                proof {
                    old(self)@.screen.lemma_given_twice(
                        plain,
                        highlight_output(old(self)@.options[self@.selected.index()]),
                    );
                }
            },
            MenuAction::Play => {
            },
            MenuAction::Quit => {
                self.leave();
                proof {
                    old(self)@.screen.lemma_given_twice(plain, seq![Command::Erase]);
                }
            },
        }
        action
    }
}

impl Default for Menu {
    /// A menu on a screen whose size was not measured.
    fn default() -> (menu: Menu)
        ensures
            menu.wf(),
            menu@.selected == MenuOptionType::Play,
            menu@.options[0].text@ == "New Game"@,
            menu@.options[1].text@ == "Options"@,
            menu@.options[2].text@ == "Quit"@,
            forall|i: int|
                0 <= i < 3 ==> (#[trigger] menu@.options[i]).start_position == (Position {
                    line: 0,
                    column: 0,
                    boundaries: None,
                }),
            menu@.screen.cursor == (CursorState {
                position: Position { line: 0, column: 0, boundaries: None },
                hidden: true,
            }),
            menu@.screen.width == 0,
            menu@.screen.height == 0,
            menu@.screen.output == seq![Command::Erase, Command::Hide],
    {
        Menu::new(None)
    }
}

} // verus!
