use vstd::prelude::*;

verus! {

/// Whether a character counts as numeric for identifier input.
pub uninterp spec fn numeric_char(c: char) -> bool;

/// Relies on char::is_numeric: whether the character has the Unicode numeric
/// property. A property of the character alone.
#[verifier::external_body]
fn is_numeric_char(c: char) -> (r: bool)
    ensures
        r == numeric_char(c),
{
    c.is_numeric()
}

/// Relies on String::push: appends exactly the given character to the end of
/// the string.
#[verifier::external_body]
fn push_char(s: &mut String, c: char)
    ensures
        final(s)@ == old(s)@ + seq![c],
{
    s.push(c);
}

/// Every character of the text is numeric.
pub open spec fn all_numeric(text: Seq<char>) -> bool {
    forall|i: int| 0 <= i < text.len() ==> numeric_char(#[trigger] text[i])
}

/// The device identifier a user is editing. Edits are guarded: only numeric
/// characters ever enter, and no insertion happens once the identifier holds
/// ten characters.
pub struct DeviceIDInputText {
    pub chars: Vec<char>,
}

impl View for DeviceIDInputText {
    type V = Seq<char>;

    open spec fn view(&self) -> Seq<char> {
        self.chars@
    }
}

impl Default for DeviceIDInputText {
    fn default() -> (text: Self)
        ensures
            text@ == Seq::<char>::empty(),
    {
        DeviceIDInputText { chars: Vec::new() }
    }
}

impl DeviceIDInputText {
    /// The field never reports itself broadly mutable; edits go only through
    /// the guarded insert and delete operations.
    pub fn is_mutable(&self) -> (r: bool)
        ensures
            r == false,
    {
        false
    }

    /// The identifier's characters, as an owned string.
    pub fn as_str(&self) -> (r: String)
        ensures
            r@ == self@,
    {
        let mut r = String::new();
        let mut i: usize = 0;
        while i < self.chars.len()
            invariant
                i <= self.chars@.len(),
                r@ == self.chars@.take(i as int),
            decreases self.chars@.len() - i,
        {
            push_char(&mut r, self.chars[i]);
            proof {
                assert(self.chars@.take(i + 1) =~= self.chars@.take(i as int) + seq![
                    self.chars@[i as int],
                ]);
            }
            i = i + 1;
        }
        proof {
            assert(self.chars@.take(self.chars@.len() as int) =~= self.chars@);
        }
        r
    }

    /// Inserts text at a character position (clamped to the end), but only
    /// when the identifier is not already ten characters long and every
    /// inserted character is numeric; otherwise nothing changes and zero is
    /// returned. Returns the number of characters inserted.
    #[verifier::loop_isolation(false)]
    pub fn insert_text(&mut self, text: &Vec<char>, char_index: usize) -> (inserted: usize)
        ensures
            old(self)@.len() == 10 ==> (inserted == 0 && final(self)@ == old(self)@),
            (old(self)@.len() != 10 && !all_numeric(text@)) ==> (inserted == 0 && final(self)@
                == old(self)@),
            (old(self)@.len() != 10 && all_numeric(text@)) ==> ({
                let at = if char_index < old(self)@.len() {
                    char_index as int
                } else {
                    old(self)@.len() as int
                };
                inserted == text@.len() && final(self)@ == old(self)@.take(at) + text@ + old(
                    self,
                )@.skip(at)
            }),
    {
        if self.chars.len() == 10 {
            return 0;
        }
        let mut k: usize = 0;
        while k < text.len()
            invariant
                k <= text@.len(),
                forall|j: int| 0 <= j < k ==> numeric_char(#[trigger] text@[j]),
            decreases text@.len() - k,
        {
            if !is_numeric_char(text[k]) {
                proof {
                    assert(!numeric_char(text@[k as int]));
                }
                return 0;
            }
            k = k + 1;
        }
        let at: usize = if char_index < self.chars.len() {
            char_index
        } else {
            self.chars.len()
        };
        let mut result: Vec<char> = Vec::new();
        let mut i: usize = 0;
        while i < at
            invariant
                i <= at,
                result@ == self.chars@.take(i as int),
            decreases at - i,
        {
            result.push(self.chars[i]);
            proof {
                assert(self.chars@.take(i + 1) =~= self.chars@.take(i as int) + seq![
                    self.chars@[i as int],
                ]);
            }
            i = i + 1;
        }
        let mut j: usize = 0;
        while j < text.len()
            invariant
                j <= text@.len(),
                result@ == self.chars@.take(at as int) + text@.take(j as int),
            decreases text@.len() - j,
        {
            result.push(text[j]);
            proof {
                assert(text@.take(j + 1) =~= text@.take(j as int) + seq![text@[j as int]]);
                assert(self.chars@.take(at as int) + text@.take(j + 1) =~= (self.chars@.take(
                    at as int,
                ) + text@.take(j as int)) + seq![text@[j as int]]);
            }
            j = j + 1;
        }
        let mut t: usize = at;
        while t < self.chars.len()
            invariant
                at <= t <= self.chars@.len(),
                result@ == self.chars@.take(at as int) + text@ + self.chars@.subrange(
                    at as int,
                    t as int,
                ),
            decreases self.chars@.len() - t,
        {
            result.push(self.chars[t]);
            proof {
                assert(self.chars@.subrange(at as int, t + 1) =~= self.chars@.subrange(
                    at as int,
                    t as int,
                ) + seq![self.chars@[t as int]]);
                assert(self.chars@.take(at as int) + text@ + self.chars@.subrange(
                    at as int,
                    t + 1,
                ) =~= (self.chars@.take(at as int) + text@ + self.chars@.subrange(
                    at as int,
                    t as int,
                )) + seq![self.chars@[t as int]]);
            }
            t = t + 1;
        }
        proof {
            assert(text@.take(text@.len() as int) =~= text@);
            assert(self.chars@.subrange(at as int, self.chars@.len() as int) =~= self.chars@.skip(
                at as int,
            ));
        }
        self.chars = result;
        text.len()
    }

    /// Deletes the characters in the given character range (each end clamped
    /// to the identifier's length).
    #[verifier::loop_isolation(false)]
    pub fn delete_char_range(&mut self, start: usize, end: usize)
        requires
            start <= end,
        ensures
            final(self)@ == ({
                let s = if start < old(self)@.len() {
                    start as int
                } else {
                    old(self)@.len() as int
                };
                let e = if end < old(self)@.len() {
                    end as int
                } else {
                    old(self)@.len() as int
                };
                old(self)@.take(s) + old(self)@.skip(e)
            }),
    {
        let s: usize = if start < self.chars.len() {
            start
        } else {
            self.chars.len()
        };
        let e: usize = if end < self.chars.len() {
            end
        } else {
            self.chars.len()
        };
        let mut result: Vec<char> = Vec::new();
        let mut i: usize = 0;
        while i < s
            invariant
                i <= s,
                result@ == self.chars@.take(i as int),
            decreases s - i,
        {
            result.push(self.chars[i]);
            proof {
                assert(self.chars@.take(i + 1) =~= self.chars@.take(i as int) + seq![
                    self.chars@[i as int],
                ]);
            }
            i = i + 1;
        }
        let mut t: usize = e;
        while t < self.chars.len()
            invariant
                e <= t <= self.chars@.len(),
                result@ == self.chars@.take(s as int) + self.chars@.subrange(e as int, t as int),
            decreases self.chars@.len() - t,
        {
            result.push(self.chars[t]);
            proof {
                assert(self.chars@.subrange(e as int, t + 1) =~= self.chars@.subrange(
                    e as int,
                    t as int,
                ) + seq![self.chars@[t as int]]);
                assert(self.chars@.take(s as int) + self.chars@.subrange(e as int, t + 1) =~= (
                self.chars@.take(s as int) + self.chars@.subrange(e as int, t as int)) + seq![
                    self.chars@[t as int],
                ]);
            }
            t = t + 1;
        }
        proof {
            assert(self.chars@.subrange(e as int, self.chars@.len() as int) =~= self.chars@.skip(
                e as int,
            ));
            assert(result@ == self.chars@.take(s as int) + self.chars@.skip(e as int));
        }
        self.chars = result;
    }
}

/// The identifier input widget: a thin handle over the text being edited.
/// Rendering (layout, painting, the separator dashes) belongs to the UI
/// layer; the widget's own rule — how the text splits into display segments —
/// is `segment_ranges`.
pub struct DeviceIDInputField<'a> {
    pub text: &'a DeviceIDInputText,
}

impl<'a> DeviceIDInputField<'a> {
    /// Wraps the text the widget edits.
    pub fn text(text: &'a DeviceIDInputText) -> (field: Self)
        ensures
            field.text == text,
    {
        Self { text }
    }

    /// How a text of the given length splits into display segments: one
    /// segment up to two characters, a second up to six, a third for the
    /// rest. Each pair is a half-open byte range; together they cover the
    /// text without gap or overlap.
    pub fn segment_ranges(len: usize) -> (ranges: Vec<(usize, usize)>)
        ensures
            len <= 2 ==> ranges@ == seq![(0usize, len)],
            2 < len <= 6 ==> ranges@ == seq![(0usize, 2usize), (2usize, len)],
            len > 6 ==> ranges@ == seq![(0usize, 2usize), (2usize, 6usize), (6usize, len)],
    {
        let mut ranges: Vec<(usize, usize)> = Vec::new();
        if len <= 2 {
            ranges.push((0, len));
            proof {
                assert(ranges@ =~= seq![(0usize, len)]);
            }
        } else if len <= 6 {
            ranges.push((0, 2));
            ranges.push((2, len));
            proof {
                assert(ranges@ =~= seq![(0usize, 2usize), (2usize, len)]);
            }
        } else {
            ranges.push((0, 2));
            ranges.push((2, 6));
            ranges.push((6, len));
            proof {
                assert(ranges@ =~= seq![(0usize, 2usize), (2usize, 6usize), (6usize, len)]);
            }
        }
        ranges
    }
}

} // verus!
