//! What a configuration document asks of its parser, measured before the
//! document is parsed.
//!
//! The parser of the `kdl` crate calls itself once for every block of
//! children that is open, once for every slash-dash whose node or entry it
//! has not read to the end, and once for every piece of a block comment: a
//! star, a slash, or the text between two of them. Its stack is finite, so a
//! document that would take it too deep is refused. The parser also fails on
//! a reserved word that stands as a type annotation, in a way from which it
//! does not return an error; such a document is refused as well.
//!
//! The scan reads the text as the parser does as far as that matters here:
//! it tells strings, raw strings and comments from the rest, so that only
//! the braces that open and close blocks are counted, and it follows where
//! nodes and their entries end, so that a slash-dash counts only until what
//! it takes out has ended. Where the scan cannot tell, it counts the
//! slash-dash as open.

use vstd::prelude::*;

verus! {

/// The most that a document may need of the parser: see [`need`].
pub const PARSE_LIMIT: usize = 1024;

/// What one open block of children costs.
pub const BLOCK_COST: usize = 16;

/// What one open slash-dash costs. The parser reads a block that stands
/// under a slash-dash more than once, so that such blocks nested in one
/// another multiply its work: the cost is set by that, for every open
/// slash-dash alike.
pub const SLASHDASH_COST: usize = 100;

/// What one piece of a block comment costs.
pub const PIECE_COST: usize = 3;

/// What was read last in a block comment.
#[derive(Debug, Clone, Copy)]
pub enum Last {
    /// The start of a comment or the end of one nested in it.
    Fresh,
    /// A star, which a slash would make the end of the comment.
    Star,
    /// A slash, which a star would make the start of a nested comment.
    Slash,
    /// Any other character.
    Ordinary,
}

/// Where the scan stands in the text.
#[derive(Debug, Clone, Copy)]
pub enum Mode {
    /// Among nodes and their entries. `raw` counts the hashes behind an `r`
    /// read just before, with which a quote would start a raw string.
    Code { raw: Option<usize> },
    /// Behind a slash among nodes, which starts a comment or a slash-dash.
    AfterSlash,
    /// In a string.
    Text,
    /// Behind a backslash in a string.
    Escape,
    /// In a raw string that ends with a quote and `hashes` hashes; `seen`
    /// counts the hashes behind a quote read just before.
    RawText { hashes: usize, seen: Option<usize> },
    /// In a comment that ends with its line.
    LineComment,
    /// In a block comment, with `open` comments open.
    BlockComment { open: usize, last: Last },
}

/// The slash-dashes that are open among the nodes of one block, or of the
/// document outside any block.
#[derive(Debug, Clone, Copy)]
pub struct Level {
    /// Slash-dashes that take out a node which has not ended.
    pub nodes: usize,
    /// Slash-dashes read inside the node that is being read.
    pub entries: usize,
    /// Whether a node is being read: something of it was read and it has not
    /// ended.
    pub in_node: bool,
    /// Whether an entry of the node is being read: something was read since
    /// the last space or slash-dash.
    pub in_entry: bool,
}

/// What the scan has found so far.
pub ghost struct Reading {
    /// Where the scan stands.
    pub mode: Mode,
    /// The levels around the block that the scan stands in, outermost first:
    /// one for every block of children that is open.
    pub outer: Seq<Level>,
    /// The level of the block that the scan stands in.
    pub level: Level,
    /// Slash-dashes that are open, in all levels.
    pub slashdashes: usize,
    /// Pieces of the block comment that the scan stands in; zero outside.
    pub pieces: usize,
}

/// The state of the scan.
#[derive(Debug)]
pub struct Scan {
    /// Where the scan stands.
    pub mode: Mode,
    /// The levels around the block that the scan stands in.
    pub outer: Vec<Level>,
    /// The level of the block that the scan stands in.
    pub level: Level,
    /// Slash-dashes that are open.
    pub slashdashes: usize,
    /// Pieces of the block comment that the scan stands in.
    pub pieces: usize,
}

impl View for Scan {
    type V = Reading;

    open spec fn view(&self) -> Reading {
        Reading {
            mode: self.mode,
            outer: self.outer@,
            level: self.level,
            slashdashes: self.slashdashes,
            pieces: self.pieces,
        }
    }
}

/// Whether `c` ends a line.
pub open spec fn ends_line(c: char) -> bool {
    c == '\r' || c == '\n' || c == '\u{0085}' || c == '\u{000C}' || c == '\u{2028}' || c
        == '\u{2029}'
}

/// Whether `c` cannot stand in a plain identifier: a control character, a
/// character of the syntax, a line end or a space.
pub open spec fn ends_identifier(c: char) -> bool {
    (c as u32) < 0x20 || c == '\\' || c == '/' || c == '(' || c == ')' || c == '{' || c == '}'
        || c == '<' || c == '>' || c == ';' || c == '[' || c == ']' || c == '=' || c == ',' || c
        == '"' || ends_line(c) || c == ' ' || c == '\t' || c == '\u{FEFF}' || c == '\u{00A0}' || c
        == '\u{1680}' || ('\u{2000}' <= c && c <= '\u{200A}') || c == '\u{202F}' || c
        == '\u{205F}' || c == '\u{3000}'
}

/// Whether `c` is a space between the entries of a node.
pub open spec fn is_space(c: char) -> bool {
    c == ' ' || c == '\t' || c == '\u{FEFF}' || c == '\u{00A0}' || c == '\u{1680}' || ('\u{2000}'
        <= c && c <= '\u{200A}') || c == '\u{202F}' || c == '\u{205F}' || c == '\u{3000}'
}

/// `a - b`, and zero where `b` is the larger.
pub open spec fn less(a: usize, b: usize) -> usize {
    if a >= b {
        (a - b) as usize
    } else {
        0
    }
}

/// The state before anything is read.
pub open spec fn start() -> Reading {
    Reading {
        mode: Mode::Code { raw: None },
        outer: Seq::empty(),
        level: Level { nodes: 0, entries: 0, in_node: false, in_entry: false },
        slashdashes: 0,
        pieces: 0,
    }
}

impl Reading {
    /// This state with the scan standing at `mode`.
    pub open spec fn at(self, mode: Mode) -> Reading {
        Reading { mode, ..self }
    }

    /// After something of a node was read.
    pub open spec fn in_node(self) -> Reading {
        Reading { level: Level { in_node: true, in_entry: true, ..self.level }, ..self }
    }

    /// After a space among the entries of a node. Where an entry was being
    /// read it has ended, and so has one of the slash-dashes read inside the
    /// node, if there is any.
    pub open spec fn entry_ended(self) -> Reading {
        if self.level.in_entry && self.level.entries > 0 {
            Reading {
                level: Level {
                    entries: (self.level.entries - 1) as usize,
                    in_entry: false,
                    ..self.level
                },
                slashdashes: less(self.slashdashes, 1),
                ..self
            }
        } else {
            Reading { level: Level { in_entry: false, ..self.level }, ..self }
        }
    }

    /// After a backslash among the entries of a node: the end of the line
    /// that follows does not end the node. The scan forgets that it stands in
    /// a node, which keeps that line end from counting as the node's end.
    pub open spec fn line_escaped(self) -> Reading {
        Reading { level: Level { in_node: false, ..self.level }, ..self }
    }

    /// After a line end or a semicolon among nodes. Where a node was being
    /// read it has ended: the slash-dashes read inside it are closed, and so
    /// is one of those that take out a node, if there is any.
    pub open spec fn node_ended(self) -> Reading {
        if self.level.in_node {
            let node: usize = if self.level.nodes > 0 {
                1
            } else {
                0
            };
            Reading {
                level: Level {
                    nodes: (self.level.nodes - node) as usize,
                    entries: 0,
                    in_node: false,
                    in_entry: false,
                },
                slashdashes: less(self.slashdashes, (self.level.entries + node) as usize),
                ..self
            }
        } else {
            self
        }
    }

    /// After a slash-dash: inside a node it takes out an entry or a block,
    /// before a node the node that follows.
    pub open spec fn dashed(self) -> Reading {
        Reading {
            level: if self.level.in_node {
                Level { entries: (self.level.entries + 1) as usize, in_entry: false, ..self.level }
            } else {
                Level { nodes: (self.level.nodes + 1) as usize, in_entry: false, ..self.level }
            },
            slashdashes: (self.slashdashes + 1) as usize,
            ..self
        }
    }

    /// After an opening brace: the block belongs to the node that is being
    /// read, and a new level starts inside it.
    pub open spec fn block_opened(self) -> Reading {
        Reading {
            outer: self.outer.push(Level { in_node: true, in_entry: true, ..self.level }),
            level: Level { nodes: 0, entries: 0, in_node: false, in_entry: false },
            ..self
        }
    }

    /// After a closing brace: the level of the block is left, and the
    /// slash-dashes that were open in it are closed. Where no block is open
    /// nothing is left.
    pub open spec fn block_closed(self) -> Reading {
        if self.outer.len() > 0 {
            Reading {
                outer: self.outer.drop_last(),
                level: self.outer.last(),
                slashdashes: less(
                    self.slashdashes,
                    (self.level.nodes + self.level.entries) as usize,
                ),
                ..self
            }
        } else {
            self.in_node()
        }
    }
}

/// The state after `c` was read in state `s`.
pub open spec fn step(s: Reading, c: char) -> Reading {
    match s.mode {
        Mode::Code { raw } => {
            if c == '"' {
                match raw {
                    Some(hashes) => s.in_node().at(Mode::RawText { hashes, seen: None }),
                    None => s.in_node().at(Mode::Text),
                }
            } else if c == '/' {
                s.at(Mode::AfterSlash)
            } else if c == '{' {
                s.block_opened().at(Mode::Code { raw: None })
            } else if c == '}' {
                s.block_closed().at(Mode::Code { raw: None })
            } else if c == '\\' {
                s.line_escaped().at(Mode::Code { raw: None })
            } else if c == ';' || ends_line(c) {
                s.node_ended().at(Mode::Code { raw: None })
            } else if is_space(c) {
                s.entry_ended().at(Mode::Code { raw: None })
            } else if c == 'r' {
                s.in_node().at(Mode::Code { raw: Some(0) })
            } else if c == '#' {
                match raw {
                    Some(hashes) => s.in_node().at(Mode::Code { raw: Some((hashes + 1) as usize) }),
                    None => s.in_node(),
                }
            } else {
                s.in_node().at(Mode::Code { raw: None })
            }
        },
        Mode::AfterSlash => {
            if c == '/' {
                s.at(Mode::LineComment)
            } else if c == '*' {
                Reading { mode: Mode::BlockComment { open: 1, last: Last::Fresh }, pieces: 1, ..s }
            } else if c == '-' {
                s.dashed().at(Mode::Code { raw: None })
            } else {
                s.in_node().at(Mode::Code { raw: None })
            }
        },
        Mode::Text => {
            if c == '\\' {
                s.at(Mode::Escape)
            } else if c == '"' {
                s.at(Mode::Code { raw: None })
            } else {
                s
            }
        },
        Mode::Escape => s.at(Mode::Text),
        Mode::RawText { hashes, seen } => {
            if c == '"' {
                if hashes == 0 {
                    s.at(Mode::Code { raw: None })
                } else {
                    s.at(Mode::RawText { hashes, seen: Some(0) })
                }
            } else if c == '#' && seen is Some {
                if seen->0 + 1 == hashes {
                    s.at(Mode::Code { raw: None })
                } else {
                    s.at(Mode::RawText { hashes, seen: Some((seen->0 + 1) as usize) })
                }
            } else {
                s.at(Mode::RawText { hashes, seen: None })
            }
        },
        Mode::LineComment => {
            if ends_line(c) {
                s.node_ended().at(Mode::Code { raw: None })
            } else {
                s
            }
        },
        Mode::BlockComment { open, last } => {
            if c == '/' && last is Star {
                if open <= 1 {
                    Reading { mode: Mode::Code { raw: None }, pieces: 0, ..s }
                } else {
                    s.at(Mode::BlockComment { open: (open - 1) as usize, last: Last::Fresh })
                }
            } else if c == '*' && last is Slash {
                s.at(Mode::BlockComment { open: (open + 1) as usize, last: Last::Fresh })
            } else if c == '*' {
                Reading {
                    mode: Mode::BlockComment { open, last: Last::Star },
                    pieces: (s.pieces + 1) as usize,
                    ..s
                }
            } else if c == '/' {
                Reading {
                    mode: Mode::BlockComment { open, last: Last::Slash },
                    pieces: (s.pieces + 1) as usize,
                    ..s
                }
            } else if last is Ordinary {
                s
            } else {
                Reading {
                    mode: Mode::BlockComment { open, last: Last::Ordinary },
                    pieces: (s.pieces + 1) as usize,
                    ..s
                }
            }
        },
    }
}

/// The state after the first `upto` characters of the text were read.
pub open spec fn scanned(text: Seq<char>, upto: int) -> Reading
    decreases upto,
{
    if upto <= 0 {
        start()
    } else {
        step(scanned(text, upto - 1), text[upto - 1])
    }
}

/// What the parser needs where the scan stands: the cost of the blocks and
/// of the slash-dashes that are open, and of the pieces of the comment that
/// it stands in.
pub open spec fn need(s: Reading) -> int {
    BLOCK_COST * s.outer.len() + SLASHDASH_COST * s.slashdashes + PIECE_COST * s.pieces
}

/// Whether the parser's need stays within [`PARSE_LIMIT`] all through the
/// text.
pub open spec fn is_shallow(text: Seq<char>) -> bool {
    forall|upto: int| 0 <= upto <= text.len() ==> need(#[trigger] scanned(text, upto)) <= PARSE_LIMIT
}

/// Whether a reserved word of the given letters stands at `at` and ends
/// there: the end of the text or a character that cannot continue an
/// identifier follows.
pub open spec fn word_ends_at(text: Seq<char>, at: int, word: Seq<char>) -> bool {
    &&& 0 <= at
    &&& at + word.len() <= text.len()
    &&& text.subrange(at, at + word.len()) == word
    &&& (at + word.len() == text.len() || ends_identifier(text[at + word.len()]))
}

/// Whether an opening parenthesis at `at` is directly followed by `true`,
/// `false` or `null` as a whole word.
pub open spec fn reserved_annotation_at(text: Seq<char>, at: int) -> bool {
    &&& 0 <= at < text.len()
    &&& text[at] == '('
    &&& (word_ends_at(text, at + 1, seq!['t', 'r', 'u', 'e']) || word_ends_at(
        text,
        at + 1,
        seq!['f', 'a', 'l', 's', 'e'],
    ) || word_ends_at(text, at + 1, seq!['n', 'u', 'l', 'l']))
}

/// Whether a reserved word stands as a type annotation anywhere in the text.
pub open spec fn has_reserved_annotation(text: Seq<char>) -> bool {
    exists|at: int| reserved_annotation_at(text, at)
}

/// Whether a document can be handed to the parser.
pub open spec fn is_parsable(text: Seq<char>) -> bool {
    is_shallow(text) && !has_reserved_annotation(text)
}

impl Level {
    /// Whether the level has counted no more slash-dashes than `read`.
    pub open spec fn within(self, read: int) -> bool {
        self.nodes + self.entries <= read
    }
}

impl Reading {
    /// Whether the counts of the state are small enough to go on counting:
    /// none exceeds the number of characters read.
    pub open spec fn within(self, read: int) -> bool {
        &&& self.outer.len() <= read
        &&& self.slashdashes <= read
        &&& self.pieces <= read
        &&& self.level.within(read)
        &&& forall|i: int| 0 <= i < self.outer.len() ==> (#[trigger] self.outer[i]).within(read)
        &&& match self.mode {
            Mode::Code { raw: Some(hashes) } => hashes <= read,
            Mode::RawText { hashes, seen } => hashes <= read && (seen matches Some(k) ==> k
                < hashes),
            Mode::BlockComment { open, last } => 1 <= open <= read,
            _ => true,
        }
    }
}

fn line_end(c: char) -> (ends: bool)
    ensures
        ends == ends_line(c),
{
    c == '\r' || c == '\n' || c == '\u{0085}' || c == '\u{000C}' || c == '\u{2028}' || c
        == '\u{2029}'
}

fn space(c: char) -> (is: bool)
    ensures
        is == is_space(c),
{
    c == ' ' || c == '\t' || c == '\u{FEFF}' || c == '\u{00A0}' || c == '\u{1680}' || ('\u{2000}'
        <= c && c <= '\u{200A}') || c == '\u{202F}' || c == '\u{205F}' || c == '\u{3000}'
}

fn identifier_end(c: char) -> (ends: bool)
    ensures
        ends == ends_identifier(c),
{
    (c as u32) < 0x20 || c == '\\' || c == '/' || c == '(' || c == ')' || c == '{' || c == '}'
        || c == '<' || c == '>' || c == ';' || c == '[' || c == ']' || c == '=' || c == ',' || c
        == '"' || line_end(c) || space(c)
}

fn minus(a: usize, b: usize) -> (d: usize)
    ensures
        d == less(a, b),
{
    if a >= b {
        a - b
    } else {
        0
    }
}

impl Scan {
    fn node_ended(&mut self, Ghost(read): Ghost<int>)
        requires
            old(self)@.within(read),
            read <= usize::MAX,
        ensures
            final(self)@ == old(self)@.node_ended(),
            final(self)@.within(read),
    {
        if self.level.in_node {
            let node: usize = if self.level.nodes > 0 {
                1
            } else {
                0
            };
            self.slashdashes = minus(self.slashdashes, self.level.entries + node);
            self.level = Level {
                nodes: self.level.nodes - node,
                entries: 0,
                in_node: false,
                in_entry: false,
            };
        }
    }

    fn block_opened(&mut self, Ghost(read): Ghost<int>)
        requires
            old(self)@.within(read),
            read < usize::MAX,
        ensures
            final(self)@ == old(self)@.block_opened(),
            final(self)@.at(old(self)@.mode).within(read + 1),
    {
        self.outer.push(Level { in_node: true, in_entry: true, ..self.level });
        self.level = Level { nodes: 0, entries: 0, in_node: false, in_entry: false };
    }

    fn block_closed(&mut self, Ghost(read): Ghost<int>)
        requires
            old(self)@.within(read),
            read <= usize::MAX,
        ensures
            final(self)@ == old(self)@.block_closed(),
            final(self)@.within(read),
    {
        match self.outer.pop() {
            Some(level) => {
                self.slashdashes = minus(self.slashdashes, self.level.nodes + self.level.entries);
                self.level = level;
                assert(self.outer@ =~= old(self).outer@.drop_last());
            },
            None => {
                self.level.in_node = true;
                self.level.in_entry = true;
            },
        }
    }

    /// Reads one character.
    fn advance(&mut self, c: char, Ghost(read): Ghost<int>)
        requires
            old(self)@.within(read),
            read < usize::MAX,
        ensures
            final(self)@ == step(old(self)@, c),
            final(self)@.within(read + 1),
    {
        match self.mode {
            Mode::Code { raw } => {
                self.mode = Mode::Code { raw: None };
                if c == '"' {
                    self.level.in_node = true;
                    self.level.in_entry = true;
                    self.mode = match raw {
                        Some(hashes) => Mode::RawText { hashes, seen: None },
                        None => Mode::Text,
                    };
                } else if c == '/' {
                    self.mode = Mode::AfterSlash;
                } else if c == '{' {
                    self.block_opened(Ghost(read));
                } else if c == '}' {
                    self.block_closed(Ghost(read));
                } else if c == '\\' {
                    self.level.in_node = false;
                } else if c == ';' || line_end(c) {
                    self.node_ended(Ghost(read));
                } else if space(c) {
                    if self.level.in_entry && self.level.entries > 0 {
                        self.level.entries = self.level.entries - 1;
                        self.slashdashes = minus(self.slashdashes, 1);
                    }
                    self.level.in_entry = false;
                } else if c == 'r' {
                    self.level.in_node = true;
                    self.level.in_entry = true;
                    self.mode = Mode::Code { raw: Some(0) };
                } else if c == '#' {
                    self.level.in_node = true;
                    self.level.in_entry = true;
                    self.mode = match raw {
                        Some(hashes) => Mode::Code { raw: Some(hashes + 1) },
                        None => Mode::Code { raw },
                    };
                } else {
                    self.level.in_node = true;
                    self.level.in_entry = true;
                }
            },
            Mode::AfterSlash => {
                self.mode = Mode::Code { raw: None };
                if c == '/' {
                    self.mode = Mode::LineComment;
                } else if c == '*' {
                    self.mode = Mode::BlockComment { open: 1, last: Last::Fresh };
                    self.pieces = 1;
                } else if c == '-' {
                    if self.level.in_node {
                        self.level.entries = self.level.entries + 1;
                    } else {
                        self.level.nodes = self.level.nodes + 1;
                    }
                    self.level.in_entry = false;
                    self.slashdashes = self.slashdashes + 1;
                } else {
                    self.level.in_node = true;
                    self.level.in_entry = true;
                }
            },
            Mode::Text => {
                if c == '\\' {
                    self.mode = Mode::Escape;
                } else if c == '"' {
                    self.mode = Mode::Code { raw: None };
                }
            },
            Mode::Escape => {
                self.mode = Mode::Text;
            },
            Mode::RawText { hashes, seen } => {
                if c == '"' {
                    if hashes == 0 {
                        self.mode = Mode::Code { raw: None };
                    } else {
                        self.mode = Mode::RawText { hashes, seen: Some(0) };
                    }
                } else if c == '#' && seen.is_some() {
                    let k = seen.unwrap();
                    if k + 1 == hashes {
                        self.mode = Mode::Code { raw: None };
                    } else {
                        self.mode = Mode::RawText { hashes, seen: Some(k + 1) };
                    }
                } else {
                    self.mode = Mode::RawText { hashes, seen: None };
                }
            },
            Mode::LineComment => {
                if line_end(c) {
                    self.node_ended(Ghost(read));
                    self.mode = Mode::Code { raw: None };
                }
            },
            Mode::BlockComment { open, last } => {
                let after_star = matches!(last, Last::Star);
                let after_slash = matches!(last, Last::Slash);
                let after_ordinary = matches!(last, Last::Ordinary);
                if c == '/' && after_star {
                    if open <= 1 {
                        self.mode = Mode::Code { raw: None };
                        self.pieces = 0;
                    } else {
                        self.mode = Mode::BlockComment { open: open - 1, last: Last::Fresh };
                    }
                } else if c == '*' && after_slash {
                    self.mode = Mode::BlockComment { open: open + 1, last: Last::Fresh };
                } else if c == '*' {
                    self.mode = Mode::BlockComment { open, last: Last::Star };
                    self.pieces = self.pieces + 1;
                } else if c == '/' {
                    self.mode = Mode::BlockComment { open, last: Last::Slash };
                    self.pieces = self.pieces + 1;
                } else if !after_ordinary {
                    self.mode = Mode::BlockComment { open, last: Last::Ordinary };
                    self.pieces = self.pieces + 1;
                }
            },
        }
    }
}

/// Whether the parser's need stays within [`PARSE_LIMIT`] all through the
/// document.
pub fn within_parse_limit(content: &Vec<char>) -> (shallow: bool)
    ensures
        shallow == is_shallow(content@),
{
    let mut state = Scan {
        mode: Mode::Code { raw: None },
        outer: Vec::new(),
        level: Level { nodes: 0, entries: 0, in_node: false, in_entry: false },
        slashdashes: 0,
        pieces: 0,
    };
    let mut i: usize = 0;
    assert(state@ == start());
    while i < content.len()
        invariant
            i <= content@.len(),
            state@ == scanned(content@, i as int),
            state@.within(i as int),
            forall|upto: int| 0 <= upto <= i ==> need(#[trigger] scanned(content@, upto)) <= PARSE_LIMIT,
        decreases content@.len() - i,
    {
        state.advance(content[i], Ghost(i as int));
        i += 1;
        assert(state@ == scanned(content@, i as int));
        let depth = state.outer.len();
        if depth > PARSE_LIMIT || state.slashdashes > PARSE_LIMIT || state.pieces > PARSE_LIMIT {
            return false;
        }
        if BLOCK_COST * depth + SLASHDASH_COST * state.slashdashes + PIECE_COST * state.pieces
            > PARSE_LIMIT {
            return false;
        }
    }
    true
}

/// Whether the letters of `word` stand at `at` and end there.
fn word_ends(content: &Vec<char>, at: usize, word: &[char]) -> (ends: bool)
    requires
        word@.len() <= 8,
    ensures
        ends == word_ends_at(content@, at as int, word@),
{
    let len = content.len();
    if at > len || len - at < word.len() {
        return false;
    }
    let mut k: usize = 0;
    while k < word.len()
        invariant
            k <= word@.len(),
            len == content@.len(),
            at + word@.len() <= content@.len(),
            forall|j: int| 0 <= j < k ==> content@[at + j] == word@[j],
        decreases word@.len() - k,
    {
        if content[at + k] != word[k] {
            assert(content@.subrange(at as int, at + word@.len())[k as int] != word@[k as int]);
            return false;
        }
        k += 1;
    }
    assert(content@.subrange(at as int, at + word@.len()) =~= word@);
    at + word.len() == len || identifier_end(content[at + word.len()])
}

/// Whether a reserved word stands as a type annotation anywhere in the
/// document.
pub fn reserved_annotation(content: &Vec<char>) -> (found: bool)
    ensures
        found == has_reserved_annotation(content@),
{
    let word_true: [char; 4] = ['t', 'r', 'u', 'e'];
    let word_false: [char; 5] = ['f', 'a', 'l', 's', 'e'];
    let word_null: [char; 4] = ['n', 'u', 'l', 'l'];
    assert(word_true@ =~= seq!['t', 'r', 'u', 'e']);
    assert(word_false@ =~= seq!['f', 'a', 'l', 's', 'e']);
    assert(word_null@ =~= seq!['n', 'u', 'l', 'l']);
    let mut i: usize = 0;
    while i < content.len()
        invariant
            i <= content@.len(),
            word_true@ == seq!['t', 'r', 'u', 'e'],
            word_false@ == seq!['f', 'a', 'l', 's', 'e'],
            word_null@ == seq!['n', 'u', 'l', 'l'],
            forall|at: int| 0 <= at < i ==> !reserved_annotation_at(content@, at),
        decreases content@.len() - i,
    {
        if content[i] == '(' && (word_ends(content, i + 1, word_true.as_slice()) || word_ends(
            content,
            i + 1,
            word_false.as_slice(),
        ) || word_ends(content, i + 1, word_null.as_slice())) {
            assert(reserved_annotation_at(content@, i as int));
            return true;
        }
        i += 1;
    }
    false
}

} // verus!
