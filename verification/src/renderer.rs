//! Incremental markdown renderer.
//!
//! A turn's text arrives as a stream of chunks appended to a growing,
//! never-shrinking buffer. The renderer styles the portion that is
//! unambiguously complete — here, whole lines — and leaves the trailing
//! partial line buffered until more input arrives; at turn end a newline
//! is appended to flush it. The grammar is line-based: a line opening
//! with backtick fences toggles code styling (and is itself consumed),
//! a line led by up to six `#` marks and a space is styled as a heading,
//! anything else is echoed; a control character is a genuine syntax
//! error, fatal for the turn.
//!
//! The central property is chunking invariance: output depends only on
//! the buffer's content, never on how it was split into chunks. The
//! contract of [`MarkdownRenderer::feed`] states each call's output as a
//! function of the whole buffer, and [`lemma_chunked_feeding_matches_whole`]
//! derives the invariance for arbitrary partitions.

use vstd::prelude::*;
use vstd::string::StrSliceExecFns;

verus! {

/// Everything the pure rendering function says about a buffer: the styled
/// output for its complete lines, how many characters those lines cover,
/// the code-styling flag left for the next line, and whether a syntax
/// error was hit.
pub struct RenderModel {
    pub out: Seq<char>,
    pub consumed: int,
    pub in_code: bool,
    pub err: bool,
}

/// Index of the first newline of `s`, or `s.len()` when there is none.
pub open spec fn nl_index(s: Seq<char>) -> nat
    decreases s.len(),
{
    if s.len() == 0 {
        0
    } else if s[0] == '\n' {
        0
    } else {
        (1 + nl_index(s.skip(1))) as nat
    }
}

/// A character the renderer refuses to style: a control character other
/// than tab (newlines never occur inside a line).
pub open spec fn is_bad_char(c: char) -> bool {
    (c as u32) < 32 && c != '\t'
}

/// A line free of control characters.
pub open spec fn line_ok(line: Seq<char>) -> bool {
    forall|i: int| 0 <= i < line.len() ==> !is_bad_char(#[trigger] line[i])
}

/// A code-fence line: three backticks, optionally followed by an info
/// string.
pub open spec fn is_fence(line: Seq<char>) -> bool {
    line.len() >= 3 && line[0] == '`' && line[1] == '`' && line[2] == '`'
}

/// `k` heading marks followed by a space, `1 <= k <= 6`.
pub open spec fn heading_at(line: Seq<char>, k: int) -> bool {
    1 <= k <= 6 && k < line.len() && line[k] == ' ' && (forall|j: int|
        0 <= j < k ==> line[j] == '#')
}

/// A heading line.
pub open spec fn is_heading(line: Seq<char>) -> bool {
    exists|k: int| heading_at(line, k)
}

/// Style prefix for code lines.
pub open spec fn code_on() -> Seq<char> {
    "\u{1b}[36m"@
}

/// Style prefix for heading lines.
pub open spec fn bold_on() -> Seq<char> {
    "\u{1b}[1m"@
}

/// Resets styling.
pub open spec fn style_off() -> Seq<char> {
    "\u{1b}[0m"@
}

/// The line terminator emitted after each styled line.
pub open spec fn newline() -> Seq<char> {
    "\n"@
}

/// Styles one complete line (without its terminator) under the current
/// code flag; yields the emitted text and the flag for the next line.
pub open spec fn render_line(line: Seq<char>, in_code: bool) -> (Seq<char>, bool) {
    if is_fence(line) {
        (Seq::empty(), !in_code)
    } else if in_code {
        (code_on() + line + style_off() + newline(), true)
    } else if is_heading(line) {
        (bold_on() + line + style_off() + newline(), false)
    } else {
        (line + newline(), false)
    }
}

/// Renders every complete line of `s`, starting with code flag `in_code`,
/// and stops at the first control character (error) or at the trailing
/// partial line (not an error — merely incomplete).
pub open spec fn render_text(s: Seq<char>, in_code: bool) -> RenderModel
    decreases s.len(),
{
    let k = nl_index(s) as int;
    if k >= s.len() {
        RenderModel { out: Seq::empty(), consumed: 0, in_code, err: false }
    } else {
        let line = s.take(k);
        if !line_ok(line) {
            RenderModel { out: Seq::empty(), consumed: 0, in_code, err: true }
        } else {
            let styled = render_line(line, in_code);
            let rest = render_text(s.skip(k + 1), styled.1);
            RenderModel {
                out: styled.0 + rest.out,
                consumed: k + 1 + rest.consumed,
                in_code: rest.in_code,
                err: rest.err,
            }
        }
    }
}

/// What a whole buffer renders to, from the initial (non-code) state.
pub open spec fn rendered(text: Seq<char>) -> RenderModel {
    render_text(text, false)
}

/// `nl_index` lies within bounds, points at a newline when one exists,
/// and nothing before it is a newline.
pub proof fn lemma_nl_index_bounds(s: Seq<char>)
    ensures
        nl_index(s) <= s.len(),
        nl_index(s) < s.len() ==> s[nl_index(s) as int] == '\n',
        forall|j: int| 0 <= j < nl_index(s) ==> s[j] != '\n',
    decreases s.len(),
{
    if s.len() > 0 && s[0] != '\n' {
        lemma_nl_index_bounds(s.skip(1));
        assert forall|j: int| 0 <= j < nl_index(s) implies s[j] != '\n' by {
            if j > 0 {
                assert(s.skip(1)[j - 1] == s[j]);
            }
        }
        if nl_index(s) < s.len() {
            assert(s.skip(1)[nl_index(s) - 1] == s[nl_index(s) as int]);
        }
    }
}

/// If `i` is a newline and nothing before it is, then `nl_index` is `i`.
pub proof fn lemma_nl_index_is(s: Seq<char>, i: int)
    requires
        0 <= i < s.len(),
        s[i] == '\n',
        forall|j: int| 0 <= j < i ==> s[j] != '\n',
    ensures
        nl_index(s) == i,
    decreases i,
{
    if i > 0 {
        assert forall|j: int| 0 <= j < i - 1 implies s.skip(1)[j] != '\n' by {
            assert(s.skip(1)[j] == s[j + 1]);
        }
        assert(s.skip(1)[i - 1] == s[i]);
        lemma_nl_index_is(s.skip(1), i - 1);
    }
}

/// If `s` has no newline at all, `nl_index` is the length.
pub proof fn lemma_nl_index_none(s: Seq<char>, n: int)
    requires
        0 <= n == s.len(),
        forall|j: int| 0 <= j < n ==> s[j] != '\n',
    ensures
        nl_index(s) == s.len(),
    decreases s.len(),
{
    if s.len() > 0 {
        assert forall|j: int| 0 <= j < s.skip(1).len() implies s.skip(1)[j] != '\n' by {
            assert(s.skip(1)[j] == s[j + 1]);
        }
        lemma_nl_index_none(s.skip(1), n - 1);
    }
}

/// A newline inside `s` keeps its position when `s` is extended.
pub proof fn lemma_nl_index_extend(s: Seq<char>, t: Seq<char>)
    requires
        nl_index(s) < s.len(),
    ensures
        nl_index(s + t) == nl_index(s),
    decreases s.len(),
{
    lemma_nl_index_bounds(s);
    assert forall|j: int| 0 <= j < nl_index(s) implies (s + t)[j] != '\n' by {
        assert((s + t)[j] == s[j]);
    }
    assert((s + t)[nl_index(s) as int] == s[nl_index(s) as int]);
    lemma_nl_index_is(s + t, nl_index(s) as int);
}

/// The renderer never consumes past the end, and what remains after the
/// consumed prefix holds no newline (unless the render erred).
pub proof fn lemma_render_consumed(s: Seq<char>, c: bool)
    ensures
        0 <= render_text(s, c).consumed <= s.len(),
        !render_text(s, c).err ==> nl_index(s.skip(render_text(s, c).consumed)) == s.len()
            - render_text(s, c).consumed,
    decreases s.len(),
{
    lemma_nl_index_bounds(s);
    let k = nl_index(s) as int;
    if k >= s.len() {
        assert(s.skip(0) =~= s);
    } else {
        let line = s.take(k);
        if line_ok(line) {
            let styled = render_line(line, c);
            lemma_render_consumed(s.skip(k + 1), styled.1);
            let rest = render_text(s.skip(k + 1), styled.1);
            assert(s.skip(k + 1 + rest.consumed) =~= s.skip(k + 1).skip(rest.consumed));
        }
    }
}

/// Decomposition of rendering under extension: rendering `s + t` renders
/// `s`'s complete lines first, then continues on the unconsumed remainder
/// of `s` joined with `t`; an error inside `s` is final, untouched by `t`.
pub proof fn lemma_render_extend(s: Seq<char>, t: Seq<char>, c: bool)
    ensures
        !render_text(s, c).err ==> {
            let m = render_text(s, c);
            let rest = render_text(s.skip(m.consumed) + t, m.in_code);
            &&& render_text(s + t, c).out == m.out + rest.out
            &&& render_text(s + t, c).consumed == m.consumed + rest.consumed
            &&& render_text(s + t, c).in_code == rest.in_code
            &&& render_text(s + t, c).err == rest.err
        },
        render_text(s, c).err ==> {
            let m = render_text(s, c);
            &&& render_text(s + t, c).out == m.out
            &&& render_text(s + t, c).consumed == m.consumed
            &&& render_text(s + t, c).in_code == m.in_code
            &&& render_text(s + t, c).err
        },
    decreases s.len(),
{
    lemma_nl_index_bounds(s);
    let k = nl_index(s) as int;
    if k >= s.len() {
        assert(s.skip(0) =~= s);
    } else {
        lemma_nl_index_extend(s, t);
        let line = s.take(k);
        assert((s + t).take(k) =~= line);
        if !line_ok(line) {
        } else {
            let styled = render_line(line, c);
            assert((s + t).skip(k + 1) =~= s.skip(k + 1) + t);
            lemma_render_extend(s.skip(k + 1), t, styled.1);
            let m1 = render_text(s.skip(k + 1), styled.1);
            lemma_render_consumed(s.skip(k + 1), styled.1);
            assert(s.skip(k + 1).skip(m1.consumed) =~= s.skip(k + 1 + m1.consumed));
            if !m1.err {
                let rest = render_text(s.skip(k + 1 + m1.consumed) + t, m1.in_code);
                assert(styled.0 + (m1.out + rest.out) =~= (styled.0 + m1.out) + rest.out);
            } else {
                assert(styled.0 + m1.out =~= styled.0 + m1.out);
            }
        }
    }
}

/// Corollary: what a buffer has emitted is a prefix of what any extension
/// of it emits.
pub proof fn lemma_out_monotone(s: Seq<char>, t: Seq<char>)
    ensures
        rendered(s + t).out == rendered(s).out + rendered(s + t).out.skip(
            rendered(s).out.len() as int,
        ),
        rendered(s).out.len() <= rendered(s + t).out.len(),
{
    lemma_render_extend(s, t, false);
    if !rendered(s).err {
        let m = rendered(s);
        let rest = render_text(s.skip(m.consumed) + t, m.in_code);
        assert(rendered(s + t).out.skip(m.out.len() as int) =~= rest.out);
    } else {
        assert(rendered(s + t).out.skip(rendered(s).out.len() as int) =~= Seq::<char>::empty());
        assert(rendered(s + t).out =~= rendered(s).out + Seq::<char>::empty());
    }
}

/// Concatenation of a sequence of chunks.
pub open spec fn concat_chunks(chunks: Seq<Seq<char>>) -> Seq<char>
    decreases chunks.len(),
{
    if chunks.len() == 0 {
        Seq::empty()
    } else {
        chunks[0] + concat_chunks(chunks.skip(1))
    }
}

/// The output [`MarkdownRenderer::feed`] emits for one chunk, as a
/// function of what was buffered before it.
pub open spec fn feed_output(prev: Seq<char>, chunk: Seq<char>) -> Seq<char> {
    rendered(prev + chunk).out.skip(rendered(prev).out.len() as int)
}

/// Everything emitted when the chunks are fed in order after `prev`.
pub open spec fn feed_outputs(prev: Seq<char>, chunks: Seq<Seq<char>>) -> Seq<char>
    decreases chunks.len(),
{
    if chunks.len() == 0 {
        Seq::empty()
    } else {
        feed_output(prev, chunks[0]) + feed_outputs(prev + chunks[0], chunks.skip(1))
    }
}

/// Law: chunking invariance. For any partition of a text into contiguous
/// chunks, feeding the chunks in order emits exactly what feeding the
/// whole text in one call emits.
pub proof fn lemma_chunked_feeding_matches_whole(chunks: Seq<Seq<char>>)
    ensures
        feed_outputs(Seq::empty(), chunks) == rendered(concat_chunks(chunks)).out,
{
    lemma_feed_outputs_general(Seq::empty(), chunks);
    assert(Seq::<char>::empty() + concat_chunks(chunks) =~= concat_chunks(chunks));
    assert(rendered(Seq::empty()).out =~= Seq::<char>::empty());
    assert(rendered(Seq::empty()).out + feed_outputs(Seq::empty(), chunks) =~= feed_outputs(
        Seq::empty(),
        chunks,
    ));
}

/// Generalized induction behind the chunking law.
proof fn lemma_feed_outputs_general(prev: Seq<char>, chunks: Seq<Seq<char>>)
    ensures
        rendered(prev).out + feed_outputs(prev, chunks) == rendered(
            prev + concat_chunks(chunks),
        ).out,
    decreases chunks.len(),
{
    if chunks.len() == 0 {
        assert(prev + concat_chunks(chunks) =~= prev);
        assert(rendered(prev).out + feed_outputs(prev, chunks) =~= rendered(prev).out);
    } else {
        lemma_out_monotone(prev, chunks[0]);
        assert(rendered(prev).out + feed_output(prev, chunks[0]) =~= rendered(
            prev + chunks[0],
        ).out);
        lemma_feed_outputs_general(prev + chunks[0], chunks.skip(1));
        assert((prev + chunks[0]) + concat_chunks(chunks.skip(1)) =~= prev + concat_chunks(
            chunks,
        ));
        assert(rendered(prev).out + feed_outputs(prev, chunks) =~= (rendered(prev).out
            + feed_output(prev, chunks[0])) + feed_outputs(prev + chunks[0], chunks.skip(1)));
    }
}

/// A render step failed: the buffer holds a control character inside a
/// completed line. Fatal for the turn; output already emitted stays valid.
#[derive(Clone, Copy, Debug, PartialEq, Eq, Structural)]
pub enum RenderError {
    ControlCharacter,
}

/// The resumable state of the incremental renderer: the live buffer, the
/// parse cursor (characters already styled and emitted), the pending
/// style flag, and the terminal-width snapshot taken at turn start.
#[derive(Debug)]
pub struct MarkdownRenderer {
    buf: String,
    cursor: usize,
    in_code: bool,
    errored: bool,
    width: Option<u32>,
}

impl MarkdownRenderer {
    /// The whole text buffered so far.
    pub closed spec fn buffered(&self) -> Seq<char> {
        self.buf@
    }

    /// The terminal width sampled when this renderer was created.
    pub closed spec fn width_snapshot(&self) -> Option<u32> {
        self.width
    }

    /// The cursor, style flag and error flag agree with what the pure
    /// rendering function says about the buffered text.
    pub closed spec fn wf(&self) -> bool {
        let m = rendered(self.buf@);
        &&& self.cursor as int == m.consumed
        &&& self.in_code == m.in_code
        &&& self.errored == m.err
        &&& self.cursor <= self.buf@.len()
    }

    /// Creates the renderer for one turn, sampling the terminal width
    /// once; chunks of the turn then share this snapshot.
    pub fn new(width: Option<u32>) -> (r: MarkdownRenderer)
        ensures
            r.wf(),
            r.buffered() == Seq::<char>::empty(),
            r.width_snapshot() == width,
    {
        let r = MarkdownRenderer {
            buf: String::new(),
            cursor: 0,
            in_code: false,
            errored: false,
            width,
        };
        r
    }

    /// Appends one chunk to the buffer and renders every newly completed
    /// line. The emitted text is a function of the whole buffer alone:
    /// whatever the chunk boundaries, the total output equals the render
    /// of the buffered text (see [`lemma_chunked_feeding_matches_whole`]).
    /// An error is reported exactly when a completed line holds a control
    /// character; the output emitted before it remains valid.
    pub fn feed(&mut self, chunk: &str) -> (r: (String, Option<RenderError>))
        requires
            old(self).wf(),
        ensures
            final(self).wf(),
            final(self).buffered() == old(self).buffered() + chunk@,
            final(self).width_snapshot() == old(self).width_snapshot(),
            rendered(final(self).buffered()).out == rendered(old(self).buffered()).out + r.0@,
            (r.1 is Some) == rendered(final(self).buffered()).err,
    {
        let ghost prev = self.buf@;
        let ghost prev_out = rendered(prev).out;
        self.buf.append(chunk);
        proof {
            lemma_render_extend(prev, chunk@, false);
        }
        let mut out = String::new();
        if self.errored {
            proof {
                assert(rendered(self.buf@).out =~= prev_out + out@);
            }
            return (out, Some(RenderError::ControlCharacter));
        }
        proof {
            lemma_render_consumed(prev, false);
            assert(prev.skip(self.cursor as int) + chunk@ =~= self.buf@.skip(self.cursor as int));
            assert(prev_out + out@ =~= prev_out);
            let rest0 = render_text(self.buf@.skip(self.cursor as int), self.in_code);
            assert(rendered(self.buf@).out =~= prev_out + out@ + rest0.out);
        }
        loop
            invariant
                prev == old(self).buf@,
                prev_out == rendered(prev).out,
                self.buf@ == prev + chunk@,
                self.cursor <= self.buf@.len(),
                !self.errored,
                self.width == old(self).width,
                rendered(self.buf@).out == prev_out + out@ + render_text(
                    self.buf@.skip(self.cursor as int),
                    self.in_code,
                ).out,
                rendered(self.buf@).consumed == self.cursor + render_text(
                    self.buf@.skip(self.cursor as int),
                    self.in_code,
                ).consumed,
                rendered(self.buf@).in_code == render_text(
                    self.buf@.skip(self.cursor as int),
                    self.in_code,
                ).in_code,
                rendered(self.buf@).err == render_text(
                    self.buf@.skip(self.cursor as int),
                    self.in_code,
                ).err,
            decreases self.buf@.len() - self.cursor,
        {
            let n = self.buf.as_str().unicode_len();
            // scan for the end of the next complete line
            let mut j = self.cursor;
            while j < n && self.buf.as_str().get_char(j) != '\n'
                invariant
                    n == self.buf@.len(),
                    self.cursor <= j <= n,
                    forall|l: int| self.cursor <= l < j ==> self.buf@[l] != '\n',
                decreases n - j,
            {
                j = j + 1;
            }
            let ghost tail = self.buf@.skip(self.cursor as int);
            let ghost code0 = self.in_code;
            let ghost out0 = out@;
            let ghost cur0 = self.cursor as int;
            proof {
                assert forall|l: int| 0 <= l < tail.len() implies tail[l] == self.buf@[l
                    + cur0] by {}
                assert forall|l: int| 0 <= l < j - cur0 implies tail[l] != '\n' by {}
                if j == n {
                    lemma_nl_index_none(tail, tail.len() as int);
                } else {
                    lemma_nl_index_is(tail, j - cur0);
                }
            }
            if j == n {
                // the trailing partial line waits for more input
                proof {
                    assert(render_text(tail, code0).out =~= Seq::<char>::empty());
                    assert(rendered(self.buf@).out =~= prev_out + out@);
                }
                return (out, None);
            }
            let ghost k = j - cur0;
            let ghost line = tail.take(k);
            proof {
                assert forall|l: int| 0 <= l < line.len() implies line[l] == self.buf@[l
                    + cur0] by {
                    assert(line[l] == tail[l]);
                }
            }
            // reject control characters inside the completed line
            let mut p = self.cursor;
            let mut bad = false;
            while p < j && !bad
                invariant
                    n == self.buf@.len(),
                    self.cursor <= p <= j <= n,
                    self.cursor as int == cur0,
                    !bad ==> forall|l: int|
                        cur0 <= l < p ==> !is_bad_char(#[trigger] self.buf@[l]),
                    bad ==> exists|l: int|
                        cur0 <= l < j && is_bad_char(#[trigger] self.buf@[l]),
                decreases j - p + (if bad { 0int } else { 1int }),
            {
                let c = self.buf.as_str().get_char(p);
                if (c as u32) < 32 && c != '\t' {
                    bad = true;
                    proof {
                        assert(is_bad_char(self.buf@[p as int]));
                    }
                } else {
                    p = p + 1;
                }
            }
            if bad {
                self.errored = true;
                proof {
                    let l = choose|l: int| cur0 <= l < j && is_bad_char(#[trigger] self.buf@[l]);
                    assert(line[l - cur0] == self.buf@[l]);
                    assert(!line_ok(line));
                    assert(render_text(tail, code0).out =~= Seq::<char>::empty());
                    assert(rendered(self.buf@).out =~= prev_out + out@);
                }
                return (out, Some(RenderError::ControlCharacter));
            }
            proof {
                assert forall|l: int| 0 <= l < line.len() implies !is_bad_char(
                    #[trigger] line[l],
                ) by {
                    assert(line[l] == self.buf@[l + cur0]);
                }
                assert(line_ok(line));
            }
            // style the line
            let start = self.cursor;
            let len = j - start;
            let is_fence_line = len >= 3 && self.buf.as_str().get_char(start) == '`'
                && self.buf.as_str().get_char(start + 1) == '`' && self.buf.as_str().get_char(
                start + 2,
            ) == '`';
            proof {
                if line.len() >= 3 {
                    assert(line[0] == self.buf@[cur0]);
                    assert(line[1] == self.buf@[cur0 + 1]);
                    assert(line[2] == self.buf@[cur0 + 2]);
                }
                assert(is_fence_line == is_fence(line));
            }
            if is_fence_line {
                self.in_code = !self.in_code;
                proof {
                    assert(out@ =~= out0 + render_line(line, code0).0);
                }
            } else if self.in_code {
                out.append("\u{1b}[36m");
                out.append(self.buf.as_str().substring_char(start, j));
                out.append("\u{1b}[0m");
                out.append("\n");
                proof {
                    assert(self.buf@.subrange(cur0, j as int) =~= line);
                    assert(out@ =~= out0 + render_line(line, code0).0);
                }
            } else {
                // count heading marks
                let mut h: usize = 0;
                while start + h < j && h <= 6 && self.buf.as_str().get_char(start + h) == '#'
                    invariant
                        n == self.buf@.len(),
                        start + h <= j <= n,
                        h <= 7,
                        start as int == cur0,
                        forall|l: int| 0 <= l < h ==> #[trigger] self.buf@[cur0 + l] == '#',
                    decreases j - (start + h),
                {
                    h = h + 1;
                }
                let heading = 1 <= h && h <= 6 && start + h < j && self.buf.as_str().get_char(
                    start + h,
                ) == ' ';
                proof {
                    if heading {
                        assert forall|l: int| 0 <= l < h implies line[l] == '#' by {
                            assert(line[l] == self.buf@[cur0 + l]);
                        }
                        assert(line[h as int] == self.buf@[cur0 + h]);
                        assert(heading_at(line, h as int));
                        assert(is_heading(line));
                    } else {
                        assert forall|kk: int| !heading_at(line, kk) by {
                            if heading_at(line, kk) {
                                if kk < h {
                                    assert(line[kk] == self.buf@[cur0 + kk]);
                                    assert(line[kk] == '#');
                                    assert(false);
                                } else if kk == h {
                                    assert(line[kk] == self.buf@[cur0 + kk]);
                                    assert(false);
                                } else {
                                    assert(h < kk <= 6);
                                    assert(h < line.len());
                                    assert(line[h as int] == '#');
                                    assert(line[h as int] == self.buf@[cur0 + h]);
                                    assert(false);
                                }
                            }
                        }
                        assert(!is_heading(line));
                    }
                }
                if heading {
                    out.append("\u{1b}[1m");
                    out.append(self.buf.as_str().substring_char(start, j));
                    out.append("\u{1b}[0m");
                    out.append("\n");
                } else {
                    out.append(self.buf.as_str().substring_char(start, j));
                    out.append("\n");
                }
                proof {
                    assert(self.buf@.subrange(cur0, j as int) =~= line);
                    assert(out@ =~= out0 + render_line(line, code0).0);
                }
            }
            self.cursor = j + 1;
            proof {
                let styled = render_line(line, code0);
                assert(self.in_code == styled.1);
                let tail2 = self.buf@.skip(self.cursor as int);
                assert(tail.skip(k + 1) =~= tail2);
                let m_tail = render_text(tail, code0);
                let rest = render_text(tail2, styled.1);
                assert(m_tail.out == styled.0 + rest.out);
                assert(m_tail.consumed == k + 1 + rest.consumed);
                assert(prev_out + out@ + rest.out =~= prev_out + out0 + m_tail.out);
            }
        }
    }

    /// Marks the turn's text final: a trailing newline is appended and
    /// rendered, flushing a construct that was waiting for its
    /// terminator.
    pub fn finish(&mut self) -> (r: (String, Option<RenderError>))
        requires
            old(self).wf(),
        ensures
            final(self).wf(),
            final(self).buffered() == old(self).buffered() + newline(),
            final(self).width_snapshot() == old(self).width_snapshot(),
            rendered(final(self).buffered()).out == rendered(old(self).buffered()).out + r.0@,
            (r.1 is Some) == rendered(final(self).buffered()).err,
    {
        self.feed("\n")
    }
}

} // verus!
