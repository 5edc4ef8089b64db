//! The renderer: it normalises the text of a view, counts the lines of the
//! frame that is on screen, and says how many of them to erase before the
//! next frame is printed.

use vstd::prelude::*;

verus! {

/// Whether the text ends with a newline.
pub open spec fn ends_with_newline(s: Seq<char>) -> bool {
    s.len() > 0 && s.last() == '\n'
}

/// The text itself where it ends with a newline, and else the text with one
/// newline added.
pub open spec fn with_final_newline(s: Seq<char>) -> Seq<char> {
    if ends_with_newline(s) {
        s
    } else {
        s.push('\n')
    }
}

/// What one character becomes in raw mode: a newline becomes a carriage
/// return and a newline, any other character stays.
pub open spec fn raw_char(c: char) -> Seq<char> {
    if c == '\n' {
        seq!['\r', '\n']
    } else {
        seq![c]
    }
}

/// The text with every newline replaced by a carriage return and a newline.
pub open spec fn raw_line_endings(s: Seq<char>) -> Seq<char>
    decreases s.len(),
{
    if s.len() == 0 {
        Seq::empty()
    } else {
        raw_line_endings(s.drop_last()) + raw_char(s.last())
    }
}

/// The frame that is printed for a view: the view's text, closed by a newline
/// where it had none, with raw-mode line endings.
pub open spec fn normalize(s: Seq<char>) -> Seq<char> {
    raw_line_endings(with_final_newline(s))
}

/// The number of newlines in the text.
pub open spec fn newlines(s: Seq<char>) -> nat
    decreases s.len(),
{
    if s.len() == 0 {
        0
    } else {
        newlines(s.drop_last()) + if s.last() == '\n' { 1nat } else { 0nat }
    }
}

/// Whether the text ends with a carriage return.
pub open spec fn ends_with_carriage_return(s: Seq<char>) -> bool {
    s.len() > 0 && s.last() == '\r'
}

/// Whether a carriage return and a newline end at position `end` of the text.
pub open spec fn line_ends_at(s: Seq<char>, end: int) -> bool {
    2 <= end <= s.len() && s[end - 2] == '\r' && s[end - 1] == '\n'
}

/// The number of lines of the text that end in a carriage return and a
/// newline.
pub open spec fn terminated_lines(s: Seq<char>) -> nat
    decreases s.len(),
{
    if s.len() == 0 {
        0
    } else {
        terminated_lines(s.drop_last()) + if line_ends_at(s, s.len() as int) { 1nat } else { 0nat }
    }
}

/// Adding one character to a text adds that character's raw form to the
/// text's raw form.
pub proof fn lemma_raw_push(s: Seq<char>, c: char)
    ensures
        raw_line_endings(s.push(c)) == raw_line_endings(s) + raw_char(c),
{
    assert(s.push(c).drop_last() == s);
}

/// A text has no more terminated lines than characters.
pub proof fn lemma_terminated_lines_bound(s: Seq<char>)
    ensures
        terminated_lines(s) <= s.len(),
    decreases s.len(),
{
    if s.len() > 0 {
        lemma_terminated_lines_bound(s.drop_last());
    }
}

/// Counting the terminated lines of a text that grows by one character.
pub proof fn lemma_terminated_lines_push(s: Seq<char>, c: char)
    ensures
        terminated_lines(s.push(c)) == terminated_lines(s) + if ends_with_carriage_return(s) && c
            == '\n' {
            1nat
        } else {
            0nat
        },
{
    assert(s.push(c).drop_last() == s);
}

/// In raw form a text has as many terminated lines as it had newlines: each
/// newline became one line ending, and nothing else did.
pub proof fn lemma_raw_terminated_lines(s: Seq<char>)
    ensures
        terminated_lines(raw_line_endings(s)) == newlines(s),
    decreases s.len(),
{
    if s.len() > 0 {
        let head = s.drop_last();
        let c = s.last();
        lemma_raw_terminated_lines(head);
        let r = raw_line_endings(head);
        if c == '\n' {
            assert(raw_line_endings(s) == r.push('\r').push('\n'));
            lemma_terminated_lines_push(r, '\r');
            lemma_terminated_lines_push(r.push('\r'), '\n');
        } else {
            assert(raw_line_endings(s) == r.push(c));
            lemma_terminated_lines_push(r, c);
        }
    }
}

/// A text with its final newline has one newline more than a text that did not
/// end with one, and as many as a text that did.
pub proof fn lemma_final_newline_count(s: Seq<char>)
    ensures
        ends_with_newline(with_final_newline(s)),
        ends_with_newline(s) ==> with_final_newline(s) == s,
        !ends_with_newline(s) ==> newlines(with_final_newline(s)) == newlines(s) + 1,
        newlines(with_final_newline(s)) >= 1,
{
    assert(s.push('\n').drop_last() == s);
}

/// Every frame ends with a line ending, and has one terminated line for each
/// newline of the view's text once that is closed by a newline.
pub proof fn lemma_normalize_lines(s: Seq<char>)
    ensures
        line_ends_at(normalize(s), normalize(s).len() as int),
        terminated_lines(normalize(s)) == newlines(with_final_newline(s)),
        terminated_lines(normalize(s)) >= 1,
{
    let t = with_final_newline(s);
    lemma_final_newline_count(s);
    lemma_raw_terminated_lines(t);
    let r = raw_line_endings(t.drop_last());
    assert(raw_line_endings(t) == r.push('\r').push('\n'));
}

/// In a text in raw form a newline never stands alone: a carriage return
/// comes right before it.
pub proof fn lemma_raw_newline_follows_return(s: Seq<char>, i: int)
    requires
        0 <= i < raw_line_endings(s).len(),
        raw_line_endings(s)[i] == '\n',
    ensures
        i >= 1,
        raw_line_endings(s)[i - 1] == '\r',
    decreases s.len(),
{
    let head = raw_line_endings(s.drop_last());
    if i < head.len() {
        lemma_raw_newline_follows_return(s.drop_last(), i);
    }
}

/// The frame to print for a view whose text is `view`.
pub fn normalize_text(view: &str) -> (frame: String)
    ensures
        frame@ == normalize(view@),
{
    let mut frame = String::new();
    let mut closed = false;
    for c in it: view.chars()
        invariant
            it.seq() == view@,
            frame@ == raw_line_endings(view@.take(it.index())),
            closed == ends_with_newline(view@.take(it.index())),
    {
        proof {
            assert(view@.take(it.index() + 1) == view@.take(it.index()).push(c));
            lemma_raw_push(view@.take(it.index()), c);
        }
        if c == '\n' {
            frame.push('\r');
            frame.push('\n');
            closed = true;
        } else {
            frame.push(c);
            closed = false;
        }
    }
    assert(view@.take(view@.len() as int) == view@);
    if !closed {
        proof {
            lemma_raw_push(view@, '\n');
        }
        frame.push('\r');
        frame.push('\n');
    }
    frame
}

/// Counts the lines of `text` that end in a carriage return and a newline.
pub fn count_terminated_lines(text: &str) -> (count: usize)
    ensures
        count == terminated_lines(text@),
{
    let total = text.unicode_len();
    let mut count: usize = 0;
    let mut after_return = false;
    for c in it: text.chars()
        invariant
            it.seq() == text@,
            total == text@.len(),
            count == terminated_lines(text@.take(it.index())),
            after_return == ends_with_carriage_return(text@.take(it.index())),
    {
        proof {
            assert(text@.take(it.index() + 1) == text@.take(it.index()).push(c));
            lemma_terminated_lines_push(text@.take(it.index()), c);
            lemma_terminated_lines_bound(text@.take(it.index() + 1));
        }
        if after_return && c == '\n' {
            count = count + 1;
        }
        after_return = c == '\r';
    }
    assert(text@.take(text@.len() as int) == text@);
    count
}

/// One printed frame: its text, and the number of its lines.
pub struct Frame {
    text: String,
    lines: usize,
}

impl View for Frame {
    type V = Seq<char>;

    closed spec fn view(&self) -> Seq<char> {
        self.text@
    }
}

impl Frame {
    #[verifier::type_invariant]
    spec fn counted(&self) -> bool {
        self.lines == terminated_lines(self.text@)
    }

    /// The frame of a screen on which nothing was printed yet.
    pub fn blank() -> (frame: Frame)
        ensures
            frame@ == Seq::<char>::empty(),
    {
        Frame { text: String::new(), lines: 0 }
    }

    /// The frame for a view whose text is `view`.
    pub fn of_view(view: &str) -> (frame: Frame)
        ensures
            frame@ == normalize(view@),
    {
        let text = normalize_text(view);
        let lines = count_terminated_lines(text.as_str());
        Frame { text, lines }
    }

    /// The text of the frame.
    pub fn text(&self) -> (text: &str)
        ensures
            text@ == self@,
    {
        self.text.as_str()
    }

    /// The number of lines that the frame takes on screen.
    pub fn lines(&self) -> (lines: usize)
        ensures
            lines == terminated_lines(self@),
    {
        proof {
            use_type_invariant(self);
        }
        self.lines
    }
}

/// What the terminal has to do to show the next frame: erase `erase` lines
/// upwards from the cursor, then print `text`.
pub struct Repaint {
    pub erase: usize,
    pub text: String,
}

/// What a renderer that shows `previous` does for a view whose text is `view`:
/// the number of lines to erase, and the frame to print.
pub open spec fn repaint_of(previous: Seq<char>, view: Seq<char>) -> (nat, Seq<char>) {
    (terminated_lines(previous), normalize(view))
}

/// The renderer keeps the frame that is on screen, to know how much to erase
/// before the next one.
pub struct Renderer {
    previous: Frame,
}

impl View for Renderer {
    type V = Seq<char>;

    /// The text of the frame that is on screen.
    closed spec fn view(&self) -> Seq<char> {
        self.previous@
    }
}

impl Renderer {
    /// A renderer for a screen on which nothing was printed yet.
    pub fn new() -> (renderer: Renderer)
        ensures
            renderer@ == Seq::<char>::empty(),
    {
        Renderer { previous: Frame::blank() }
    }

    /// The frame that is on screen.
    pub fn frame(&self) -> (frame: &Frame)
        ensures
            frame@ == self@,
    {
        &self.previous
    }

    /// Replaces the frame on screen by the frame for `view`: returns the
    /// number of lines of the old frame, which are to be erased, and the text
    /// of the new one, which is to be printed.
    pub fn render(&mut self, view: &str) -> (repaint: Repaint)
        ensures
            repaint.erase == repaint_of(old(self)@, view@).0,
            repaint.text@ == repaint_of(old(self)@, view@).1,
            final(self)@ == repaint.text@,
    {
        let erase = self.previous.lines();
        let next = Frame::of_view(view);
        let text = next.text.clone();
        self.previous = next;
        Repaint { erase, text }
    }
}

/// The lines erased before a frame is printed are the lines of the frame
/// printed before it: one for each newline of the earlier view's text, closed
/// by a newline where it had none.
pub proof fn lemma_erase_matches_previous_frame(
    screen: Seq<char>,
    first_view: Seq<char>,
    second_view: Seq<char>,
)
    ensures
        ({
            let first = repaint_of(screen, first_view);
            let second = repaint_of(first.1, second_view);
            &&& second.0 == terminated_lines(first.1)
            &&& second.0 == newlines(with_final_newline(first_view))
            &&& second.0 >= 1
        }),
{
    lemma_normalize_lines(first_view);
}

} // verus!
