use vstd::prelude::*;

verus! {

/// The last `n` elements of `s` (all of `s` when it is shorter).
pub open spec fn last_n<T>(s: Seq<T>, n: nat) -> Seq<T> {
    if s.len() <= n {
        s
    } else {
        s.subrange(s.len() - n, s.len() as int)
    }
}

/// The characters of each string.
pub open spec fn texts(s: Seq<String>) -> Seq<Seq<char>> {
    s.map_values(|t: String| t@)
}

/// What a `TextBuffer` holds, as mathematical values.
pub ghost struct BufferModel {
    pub lines: Seq<Seq<char>>,
    pub capacity: nat,
    pub viewport_height: nat,
    pub scroll_offset: nat,
}

impl BufferModel {
    /// A buffer with no lines, its viewport at the top.
    pub open spec fn empty(capacity: nat, viewport_height: nat) -> BufferModel {
        BufferModel { lines: Seq::empty(), capacity, viewport_height, scroll_offset: 0 }
    }

    /// Largest offset at which the viewport still shows a full window.
    pub open spec fn max_scroll(self) -> nat {
        if self.lines.len() > self.viewport_height {
            (self.lines.len() - self.viewport_height) as nat
        } else {
            0
        }
    }

    pub open spec fn wf(self) -> bool {
        &&& self.lines.len() <= self.capacity
        &&& self.scroll_offset <= self.max_scroll()
    }

    pub open spec fn at_bottom(self) -> bool {
        self.scroll_offset >= self.max_scroll()
    }

    pub open spec fn with_offset(self, offset: nat) -> BufferModel {
        BufferModel { scroll_offset: offset, ..self }
    }

    /// Appending one line: the oldest line goes when the buffer is full; the
    /// viewport follows the bottom only if it was there before, and otherwise
    /// keeps showing the same first line as long as that line is still held.
    pub open spec fn add(self, line: Seq<char>) -> BufferModel {
        let lines = last_n(self.lines.push(line), self.capacity);
        let evicted = lines.len() < self.lines.len() + 1;
        let grown = BufferModel { lines, ..self };
        if self.at_bottom() {
            grown.with_offset(grown.max_scroll())
        } else if evicted && self.scroll_offset > 0 {
            grown.with_offset((self.scroll_offset - 1) as nat)
        } else {
            grown
        }
    }

    /// Appending each line of `s` in turn.
    pub open spec fn add_all(self, s: Seq<Seq<char>>) -> BufferModel
        decreases s.len(),
    {
        if s.len() == 0 {
            self
        } else {
            self.add_all(s.drop_last()).add(s.last())
        }
    }

    pub open spec fn scroll_up(self) -> BufferModel {
        if self.scroll_offset > 0 {
            self.with_offset((self.scroll_offset - 1) as nat)
        } else {
            self
        }
    }

    pub open spec fn scroll_down(self) -> BufferModel {
        if self.scroll_offset < self.max_scroll() {
            self.with_offset(self.scroll_offset + 1)
        } else {
            self
        }
    }

    pub open spec fn scroll_down_n(self, n: nat) -> BufferModel
        decreases n,
    {
        if n == 0 {
            self
        } else {
            self.scroll_down_n((n - 1) as nat).scroll_down()
        }
    }

    /// The window of lines that the viewport shows.
    pub open spec fn visible(self) -> Seq<Seq<char>> {
        if self.scroll_offset < self.lines.len() {
            let end = if self.scroll_offset + self.viewport_height < self.lines.len() {
                (self.scroll_offset + self.viewport_height) as int
            } else {
                self.lines.len() as int
            };
            self.lines.subrange(self.scroll_offset as int, end)
        } else {
            Seq::empty()
        }
    }

    pub open spec fn cleared(self) -> BufferModel {
        BufferModel { lines: Seq::empty(), scroll_offset: 0, ..self }
    }

    pub open spec fn resized(self, height: nat) -> BufferModel {
        let tall = BufferModel { viewport_height: height, ..self };
        if self.scroll_offset > tall.max_scroll() {
            tall.with_offset(tall.max_scroll())
        } else {
            tall
        }
    }
}

/// A bounded, ordered log of text lines with a scrollable viewport.
pub struct TextBuffer {
    lines: Vec<String>,
    max_lines: usize,
    viewport_height: usize,
    scroll_position: usize,
}

impl View for TextBuffer {
    type V = BufferModel;

    closed spec fn view(&self) -> BufferModel {
        BufferModel {
            lines: texts(self.lines@),
            capacity: self.max_lines as nat,
            viewport_height: self.viewport_height as nat,
            scroll_offset: self.scroll_position as nat,
        }
    }
}

/// Keeping the last `n` twice is keeping them once: trimming before an
/// append and after it gives what trimming only after it gives.
proof fn lemma_last_n_push<T>(a: Seq<T>, x: T, n: nat)
    ensures
        last_n(last_n(a, n).push(x), n) == last_n(a.push(x), n),
{
    if a.len() > n {
        let t = a.subrange(a.len() - n, a.len() as int);
        if n == 0 {
            assert(last_n(t.push(x), n) =~= last_n(a.push(x), n));
        } else {
            assert(last_n(t.push(x), n) =~= last_n(a.push(x), n));
        }
    }
}

/// Appending one line keeps the buffer well formed.
pub proof fn lemma_add_wf(m: BufferModel, line: Seq<char>)
    requires
        m.wf(),
    ensures
        m.add(line).wf(),
        m.add(line).capacity == m.capacity,
        m.add(line).viewport_height == m.viewport_height,
        m.add(line).lines == last_n(m.lines.push(line), m.capacity),
{
}

/// However many lines are appended, the buffer never holds more lines than
/// its capacity, and its offset stays within range.
pub proof fn lemma_capacity_bound(m: BufferModel, s: Seq<Seq<char>>)
    requires
        m.wf(),
    ensures
        m.add_all(s).wf(),
        m.add_all(s).lines.len() <= m.capacity,
        m.add_all(s).capacity == m.capacity,
        m.add_all(s).viewport_height == m.viewport_height,
    decreases s.len(),
{
    if s.len() > 0 {
        lemma_capacity_bound(m, s.drop_last());
        lemma_add_wf(m.add_all(s.drop_last()), s.last());
    }
}

/// After a run of appends the buffer holds the last `capacity` lines of
/// what it held followed by what was appended.
pub proof fn lemma_add_all_lines(m: BufferModel, s: Seq<Seq<char>>)
    requires
        m.wf(),
    ensures
        m.add_all(s).lines == last_n(m.lines + s, m.capacity),
    decreases s.len(),
{
    if s.len() == 0 {
        assert(m.lines + s =~= m.lines);
    } else {
        let prev = s.drop_last();
        lemma_add_all_lines(m, prev);
        lemma_capacity_bound(m, prev);
        lemma_add_wf(m.add_all(prev), s.last());
        lemma_last_n_push(m.lines + prev, s.last(), m.capacity);
        assert((m.lines + prev).push(s.last()) =~= m.lines + s);
    }
}

/// Appending at least `capacity` lines leaves exactly the last `capacity`
/// of them, in the order they were appended.
pub proof fn lemma_keeps_last_lines(m: BufferModel, s: Seq<Seq<char>>)
    requires
        m.wf(),
        s.len() >= m.capacity,
    ensures
        m.add_all(s).lines == s.subrange(s.len() - m.capacity, s.len() as int),
{
    lemma_add_all_lines(m, s);
    let all = m.lines + s;
    if all.len() > m.capacity {
        assert(all.subrange(all.len() - m.capacity, all.len() as int) =~= s.subrange(
            s.len() - m.capacity,
            s.len() as int,
        ));
    } else {
        assert(m.lines.len() == 0);
        assert(all =~= s);
        assert(s.subrange(0, s.len() as int) =~= s);
    }
}

/// The visible window is never taller than the viewport and lies within the
/// lines held: it is the run of lines that starts at the offset.
pub proof fn lemma_visible_in_bounds(m: BufferModel)
    ensures
        m.visible().len() <= m.viewport_height,
        m.visible().len() > 0 ==> m.scroll_offset + m.visible().len() <= m.lines.len(),
        forall|i: int|
            0 <= i < m.visible().len() ==> #[trigger] m.visible()[i] == m.lines[m.scroll_offset + i],
{
}

/// Scrolling up or down keeps the offset within `[0, max_scroll]`, and
/// scrolling down `n` times stops at the bottom: past it more calls change
/// nothing.
pub proof fn lemma_scroll_clamped(m: BufferModel, n: nat)
    requires
        m.wf(),
    ensures
        m.scroll_up().wf(),
        m.scroll_down().wf(),
        m.scroll_down_n(n).wf(),
        m.scroll_down_n(n).scroll_offset == if m.scroll_offset + n <= m.max_scroll() {
            m.scroll_offset + n
        } else {
            m.max_scroll()
        },
        m.scroll_down_n(n).lines == m.lines,
        m.scroll_down_n(n).viewport_height == m.viewport_height,
        m.at_bottom() ==> m.scroll_down_n(n) == m,
    decreases n,
{
    if n > 0 {
        lemma_scroll_clamped(m, (n - 1) as nat);
        assert(m.scroll_down_n((n - 1) as nat).max_scroll() == m.max_scroll());
    }
}

impl TextBuffer {
    pub open spec fn wf(&self) -> bool {
        self@.wf()
    }

    /// An empty buffer holding at most `max_lines` lines, whose viewport
    /// shows as many lines as the buffer can hold.
    pub fn new(max_lines: usize) -> (r: TextBuffer)
        ensures
            r.wf(),
            r@.lines == Seq::<Seq<char>>::empty(),
            r@.capacity == max_lines,
            r@.viewport_height == max_lines,
            r@.scroll_offset == 0,
    {
        TextBuffer::with_viewport(max_lines, max_lines)
    }

    /// An empty buffer holding at most `max_lines` lines, with a viewport of
    /// `viewport_height` lines.
    pub fn with_viewport(max_lines: usize, viewport_height: usize) -> (r: TextBuffer)
        ensures
            r.wf(),
            r@.lines == Seq::<Seq<char>>::empty(),
            r@.capacity == max_lines,
            r@.viewport_height == viewport_height,
            r@.scroll_offset == 0,
    {
        let r = TextBuffer { lines: Vec::new(), max_lines, viewport_height, scroll_position: 0 };
        assert(texts(r.lines@) =~= Seq::<Seq<char>>::empty());
        r
    }

    /// Appends `line`, evicting the oldest line when the buffer is full.
    pub fn add_line(&mut self, line: String)
        requires
            old(self).wf(),
        ensures
            final(self).wf(),
            final(self)@ == old(self)@.add(line@),
            final(self)@.lines.len() <= final(self)@.capacity,
    {
        if self.max_lines == 0 {
            assert(last_n(old(self)@.lines.push(line@), 0) =~= Seq::<Seq<char>>::empty());
            assert(texts(self.lines@) =~= Seq::<Seq<char>>::empty());
            assert(self@ == old(self)@.add(line@));
            return;
        }
        let was_at_bottom = self.is_at_bottom();
        let mut evicted = false;
        if self.lines.len() >= self.max_lines {
            self.lines.remove(0);
            evicted = true;
        }
        let ghost text = line@;
        self.lines.push(line);
        if was_at_bottom {
            self.scroll_position = self.max_scroll();
        } else if evicted && self.scroll_position > 0 {
            self.scroll_position = self.scroll_position - 1;
        }
        proof {
            let m = old(self)@;
            let pushed = m.lines.push(text);
            if m.lines.len() < m.capacity {
                assert(last_n(pushed, m.capacity) == pushed);
            } else {
                assert(last_n(pushed, m.capacity) =~= pushed.subrange(1, pushed.len() as int));
            }
            assert(texts(self.lines@) =~= last_n(pushed, m.capacity));
            assert(self@ == m.add(text));
        }
    }

    /// Appends each line of `new_lines` in order.
    pub fn add_lines(&mut self, new_lines: Vec<String>)
        requires
            old(self).wf(),
        ensures
            final(self).wf(),
            final(self)@ == old(self)@.add_all(texts(new_lines@)),
    {
        let mut i: usize = 0;
        while i < new_lines.len()
            invariant
                i <= new_lines@.len(),
                self.wf(),
                self@ == old(self)@.add_all(texts(new_lines@.subrange(0, i as int))),
            decreases new_lines@.len() - i,
        {
            let line = new_lines[i].clone();
            self.add_line(line);
            proof {
                let next = texts(new_lines@.subrange(0, i + 1));
                assert(next.drop_last() =~= texts(new_lines@.subrange(0, i as int)));
                assert(next.last() == new_lines@[i as int]@);
            }
            i = i + 1;
        }
        assert(new_lines@.subrange(0, i as int) =~= new_lines@);
    }

    /// Moves the viewport one line up, stopping at the top.
    pub fn scroll_up(&mut self)
        requires
            old(self).wf(),
        ensures
            final(self).wf(),
            final(self)@ == old(self)@.scroll_up(),
    {
        if self.scroll_position > 0 {
            self.scroll_position = self.scroll_position - 1;
        }
    }

    /// Moves the viewport one line down, stopping at the bottom.
    pub fn scroll_down(&mut self)
        requires
            old(self).wf(),
        ensures
            final(self).wf(),
            final(self)@ == old(self)@.scroll_down(),
            final(self)@.scroll_offset <= final(self)@.max_scroll(),
            old(self)@.at_bottom() ==> final(self)@ == old(self)@,
    {
        let max_scroll = self.max_scroll();
        if self.scroll_position < max_scroll {
            self.scroll_position = self.scroll_position + 1;
        }
    }

    pub fn scroll_to_top(&mut self)
        requires
            old(self).wf(),
        ensures
            final(self).wf(),
            final(self)@ == old(self)@.with_offset(0),
    {
        self.scroll_position = 0;
    }

    pub fn scroll_to_bottom(&mut self)
        requires
            old(self).wf(),
        ensures
            final(self).wf(),
            final(self)@ == old(self)@.with_offset(old(self)@.max_scroll()),
            final(self)@.at_bottom(),
    {
        self.scroll_position = self.max_scroll();
    }

    /// The lines that the viewport shows, never more than its height.
    pub fn visible_lines(&self) -> (r: &[String])
        requires
            self.wf(),
        ensures
            texts(r@) == self@.visible(),
            r@.len() <= self@.viewport_height,
    {
        let start = self.scroll_position;
        let len = self.lines.len();
        if start < len {
            let end = if self.viewport_height < len - start {
                start + self.viewport_height
            } else {
                len
            };
            vstd::slice::slice_subrange(self.lines.as_slice(), start, end)
        } else {
            vstd::slice::slice_subrange(self.lines.as_slice(), 0, 0)
        }
    }

    pub fn is_at_bottom(&self) -> (r: bool)
        ensures
            r == self@.at_bottom(),
    {
        self.scroll_position >= self.max_scroll()
    }

    /// Drops every line and returns the viewport to the top; the capacity and
    /// the viewport height stay.
    pub fn clear(&mut self)
        requires
            old(self).wf(),
        ensures
            final(self).wf(),
            final(self)@ == old(self)@.cleared(),
    {
        self.lines = Vec::new();
        self.scroll_position = 0;
        assert(texts(self.lines@) =~= Seq::<Seq<char>>::empty());
    }

    /// Changes how many lines the viewport shows, pulling the offset back
    /// into range where the taller viewport needs it.
    pub fn set_viewport_height(&mut self, height: usize)
        requires
            old(self).wf(),
        ensures
            final(self).wf(),
            final(self)@ == old(self)@.resized(height as nat),
    {
        self.viewport_height = height;
        let max_scroll = self.max_scroll();
        if self.scroll_position > max_scroll {
            self.scroll_position = max_scroll;
        }
    }

    /// Every line held, oldest first.
    pub fn lines(&self) -> (r: &[String])
        ensures
            texts(r@) == self@.lines,
    {
        self.lines.as_slice()
    }

    pub fn len(&self) -> (r: usize)
        ensures
            r == self@.lines.len(),
    {
        self.lines.len()
    }

    pub fn capacity(&self) -> (r: usize)
        ensures
            r == self@.capacity,
    {
        self.max_lines
    }

    pub fn viewport_height(&self) -> (r: usize)
        ensures
            r == self@.viewport_height,
    {
        self.viewport_height
    }

    pub fn scroll_offset(&self) -> (r: usize)
        ensures
            r == self@.scroll_offset,
    {
        self.scroll_position
    }

    /// Scroll position for a position indicator: offset, total number of
    /// lines and viewport height.
    pub fn position(&self) -> (r: (usize, usize, usize))
        ensures
            r.0 == self@.scroll_offset,
            r.1 == self@.lines.len(),
            r.2 == self@.viewport_height,
    {
        (self.scroll_position, self.lines.len(), self.viewport_height)
    }

    pub fn max_scroll(&self) -> (r: usize)
        ensures
            r == self@.max_scroll(),
    {
        self.lines.len().saturating_sub(self.viewport_height)
    }
}

} // verus!
