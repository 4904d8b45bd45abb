//! Bounded numeric parameters that are validated at the contract boundary.

use vstd::prelude::*;
use vstd::std_specs::convert::FromSpecImpl;
use vstd::std_specs::convert::TryFromSpecImpl;

verus! {

pub const MAX_PAGE_SIZE: u32 = 1000;

pub const MAX_WINDOW_SIZE: u32 = 10000;

pub const MAX_DIFF_BYTES: u64 = 10485760;

pub const MAX_DIFF_HUNKS: u32 = 10000;

/// Why a bounded value was rejected.
#[derive(Debug, Clone, Copy, PartialEq, Eq, Structural)]
pub enum BoundsError {
    TooSmall,
    TooLarge,
}

impl BoundsError {
    /// The human-readable text of this error.
    pub fn message(&self) -> (s: &'static str)
        ensures
            s@ == (match *self {
                BoundsError::TooSmall => "value too small"@,
                BoundsError::TooLarge => "value too large"@,
            }),
    {
        match self {
            BoundsError::TooSmall => "value too small",
            BoundsError::TooLarge => "value too large",
        }
    }
}

/// What validating `value` against the closed range `[1, max]` yields:
/// zero is too small, anything above `max` is too large.
pub open spec fn check_bound(value: int, max: int) -> Result<int, BoundsError> {
    if value <= 0 {
        Err(BoundsError::TooSmall)
    } else if value > max {
        Err(BoundsError::TooLarge)
    } else {
        Ok(value)
    }
}

/// A bounded value is accepted exactly on `[1, max]`; zero fails as too
/// small and everything above the maximum as too large.
pub proof fn lemma_bound_edges(max: int)
    requires
        1 <= max,
    ensures
        check_bound(0, max) == Err::<int, BoundsError>(BoundsError::TooSmall),
        check_bound(1, max) == Ok::<int, BoundsError>(1),
        check_bound(max, max) == Ok::<int, BoundsError>(max),
        check_bound(max + 1, max) == Err::<int, BoundsError>(BoundsError::TooLarge),
        forall|v: int| (check_bound(v, max) is Ok) <==> 1 <= v <= max,
{
}

/// Number of items per page, always in `[1, MAX_PAGE_SIZE]`.
#[derive(Debug, Clone, Copy)]
pub struct PageSize {
    value: u32,
}

impl PageSize {
    #[verifier::type_invariant]
    spec fn in_range(self) -> bool {
        1 <= self.value <= MAX_PAGE_SIZE
    }

    /// The number this value stands for.
    pub closed spec fn value(self) -> u32 {
        self.value
    }

    /// The bounded value that stands for `value`.
    pub closed spec fn with_value(value: u32) -> PageSize {
        PageSize { value }
    }

    /// `with_value` and `value` are inverse to each other.
    pub broadcast proof fn lemma_with_value(value: u32)
        ensures
            #[trigger] Self::with_value(value).value() == value,
    {
    }

    pub fn get(&self) -> (r: u32)
        ensures
            r == self.value(),
            1 <= r <= MAX_PAGE_SIZE,
    {
        proof {
            use_type_invariant(self);
        }
        self.value
    }
}

impl TryFromSpecImpl<u32> for PageSize {
    open spec fn obeys_try_from_spec() -> bool {
        true
    }

    open spec fn try_from_spec(value: u32) -> Result<Self, BoundsError> {
        match check_bound(value as int, MAX_PAGE_SIZE as int) {
            Ok(_) => Ok(PageSize::with_value(value)),
            Err(e) => Err(e),
        }
    }
}

impl TryFrom<u32> for PageSize {
    type Error = BoundsError;

    fn try_from(value: u32) -> (r: Result<Self, BoundsError>)
        ensures
            match check_bound(value as int, MAX_PAGE_SIZE as int) {
                Ok(v) => r is Ok && r->Ok_0.value() == v,
                Err(e) => r == Err::<Self, BoundsError>(e),
            },
    {
        if value == 0 {
            return Err(BoundsError::TooSmall);
        }
        if value > MAX_PAGE_SIZE {
            return Err(BoundsError::TooLarge);
        }
        Ok(PageSize { value })
    }
}

/// Number of commits in a graph window, always in `[1, MAX_WINDOW_SIZE]`.
#[derive(Debug, Clone, Copy)]
pub struct WindowSize {
    value: u32,
}

impl WindowSize {
    #[verifier::type_invariant]
    spec fn in_range(self) -> bool {
        1 <= self.value <= MAX_WINDOW_SIZE
    }

    /// The number this value stands for.
    pub closed spec fn value(self) -> u32 {
        self.value
    }

    /// The bounded value that stands for `value`.
    pub closed spec fn with_value(value: u32) -> WindowSize {
        WindowSize { value }
    }

    /// `with_value` and `value` are inverse to each other.
    pub broadcast proof fn lemma_with_value(value: u32)
        ensures
            #[trigger] Self::with_value(value).value() == value,
    {
    }

    pub fn get(&self) -> (r: u32)
        ensures
            r == self.value(),
            1 <= r <= MAX_WINDOW_SIZE,
    {
        proof {
            use_type_invariant(self);
        }
        self.value
    }
}

impl TryFromSpecImpl<u32> for WindowSize {
    open spec fn obeys_try_from_spec() -> bool {
        true
    }

    open spec fn try_from_spec(value: u32) -> Result<Self, BoundsError> {
        match check_bound(value as int, MAX_WINDOW_SIZE as int) {
            Ok(_) => Ok(WindowSize::with_value(value)),
            Err(e) => Err(e),
        }
    }
}

impl TryFrom<u32> for WindowSize {
    type Error = BoundsError;

    fn try_from(value: u32) -> (r: Result<Self, BoundsError>)
        ensures
            match check_bound(value as int, MAX_WINDOW_SIZE as int) {
                Ok(v) => r is Ok && r->Ok_0.value() == v,
                Err(e) => r == Err::<Self, BoundsError>(e),
            },
    {
        if value == 0 {
            return Err(BoundsError::TooSmall);
        }
        if value > MAX_WINDOW_SIZE {
            return Err(BoundsError::TooLarge);
        }
        Ok(WindowSize { value })
    }
}

/// Upper limit on the bytes of diff to process, always in `[1, MAX_DIFF_BYTES]`.
#[derive(Debug, Clone, Copy)]
pub struct MaxBytes {
    value: u64,
}

impl MaxBytes {
    #[verifier::type_invariant]
    spec fn in_range(self) -> bool {
        1 <= self.value <= MAX_DIFF_BYTES
    }

    /// The number this value stands for.
    pub closed spec fn value(self) -> u64 {
        self.value
    }

    /// The bounded value that stands for `value`.
    pub closed spec fn with_value(value: u64) -> MaxBytes {
        MaxBytes { value }
    }

    /// `with_value` and `value` are inverse to each other.
    pub broadcast proof fn lemma_with_value(value: u64)
        ensures
            #[trigger] Self::with_value(value).value() == value,
    {
    }

    pub fn get(&self) -> (r: u64)
        ensures
            r == self.value(),
            1 <= r <= MAX_DIFF_BYTES,
    {
        proof {
            use_type_invariant(self);
        }
        self.value
    }
}

impl TryFromSpecImpl<u64> for MaxBytes {
    open spec fn obeys_try_from_spec() -> bool {
        true
    }

    open spec fn try_from_spec(value: u64) -> Result<Self, BoundsError> {
        match check_bound(value as int, MAX_DIFF_BYTES as int) {
            Ok(_) => Ok(MaxBytes::with_value(value)),
            Err(e) => Err(e),
        }
    }
}

impl TryFrom<u64> for MaxBytes {
    type Error = BoundsError;

    fn try_from(value: u64) -> (r: Result<Self, BoundsError>)
        ensures
            match check_bound(value as int, MAX_DIFF_BYTES as int) {
                Ok(v) => r is Ok && r->Ok_0.value() == v,
                Err(e) => r == Err::<Self, BoundsError>(e),
            },
    {
        if value == 0 {
            return Err(BoundsError::TooSmall);
        }
        if value > MAX_DIFF_BYTES {
            return Err(BoundsError::TooLarge);
        }
        Ok(MaxBytes { value })
    }
}

/// Upper limit on the hunks of diff to return, always in `[1, MAX_DIFF_HUNKS]`.
#[derive(Debug, Clone, Copy)]
pub struct MaxHunks {
    value: u32,
}

impl MaxHunks {
    #[verifier::type_invariant]
    spec fn in_range(self) -> bool {
        1 <= self.value <= MAX_DIFF_HUNKS
    }

    /// The number this value stands for.
    pub closed spec fn value(self) -> u32 {
        self.value
    }

    /// The bounded value that stands for `value`.
    pub closed spec fn with_value(value: u32) -> MaxHunks {
        MaxHunks { value }
    }

    /// `with_value` and `value` are inverse to each other.
    pub broadcast proof fn lemma_with_value(value: u32)
        ensures
            #[trigger] Self::with_value(value).value() == value,
    {
    }

    pub fn get(&self) -> (r: u32)
        ensures
            r == self.value(),
            1 <= r <= MAX_DIFF_HUNKS,
    {
        proof {
            use_type_invariant(self);
        }
        self.value
    }
}

impl TryFromSpecImpl<u32> for MaxHunks {
    open spec fn obeys_try_from_spec() -> bool {
        true
    }

    open spec fn try_from_spec(value: u32) -> Result<Self, BoundsError> {
        match check_bound(value as int, MAX_DIFF_HUNKS as int) {
            Ok(_) => Ok(MaxHunks::with_value(value)),
            Err(e) => Err(e),
        }
    }
}

impl TryFrom<u32> for MaxHunks {
    type Error = BoundsError;

    fn try_from(value: u32) -> (r: Result<Self, BoundsError>)
        ensures
            match check_bound(value as int, MAX_DIFF_HUNKS as int) {
                Ok(v) => r is Ok && r->Ok_0.value() == v,
                Err(e) => r == Err::<Self, BoundsError>(e),
            },
    {
        if value == 0 {
            return Err(BoundsError::TooSmall);
        }
        if value > MAX_DIFF_HUNKS {
            return Err(BoundsError::TooLarge);
        }
        Ok(MaxHunks { value })
    }
}

/// Opaque position in a paginated listing; empty for the first page.
#[derive(Debug, Clone)]
pub struct Cursor {
    data: String,
}

impl View for Cursor {
    type V = Seq<char>;

    closed spec fn view(&self) -> Seq<char> {
        self.data@
    }
}

impl Cursor {
    /// The cursor that holds `data`.
    pub closed spec fn holding(data: String) -> Cursor {
        Cursor { data }
    }

    /// A cursor shows the text it holds.
    pub broadcast proof fn lemma_holding(data: String)
        ensures
            #[trigger] Self::holding(data)@ == data@,
    {
    }

    pub fn initial() -> (c: Cursor)
        ensures
            c@ == Seq::<char>::empty(),
    {
        Cursor { data: String::new() }
    }

    pub fn get(&self) -> (s: &str)
        ensures
            s@ == self@,
    {
        self.data.as_str()
    }
}

impl FromSpecImpl<String> for Cursor {
    open spec fn obeys_from_spec() -> bool {
        true
    }

    open spec fn from_spec(data: String) -> Cursor {
        Cursor::holding(data)
    }
}

impl From<String> for Cursor {
    fn from(data: String) -> (c: Cursor)
        ensures
            c@ == data@,
    {
        Cursor { data }
    }
}

impl AsRef<str> for Cursor {
    fn as_ref(&self) -> (s: &str)
        ensures
            s@ == self@,
    {
        self.data.as_str()
    }
}

} // verus!
