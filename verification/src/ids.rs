use vstd::prelude::*;

verus! {

/// Identifier of a task (a storage row id).
#[derive(Debug, Clone, Copy, PartialEq, Eq, Structural, PartialOrd, Ord, Hash)]
pub struct TaskId(i64);

/// Identifier of a work day.
#[derive(Debug, Clone, Copy, PartialEq, Eq, Structural, PartialOrd, Ord, Hash)]
pub struct WorkDayId(i64);

/// Identifier of an hour interval.
#[derive(Debug, Clone, Copy, PartialEq, Eq, Structural, PartialOrd, Ord, Hash)]
pub struct HourIntervalId(i64);

/// Identifier of a ten-minute check.
#[derive(Debug, Clone, Copy, PartialEq, Eq, Structural, PartialOrd, Ord, Hash)]
pub struct TenMinCheckId(i64);

impl TaskId {
    pub closed spec fn spec_value(self) -> i64 {
        self.0
    }

    /// The placeholder id of a row not stored yet (storage assigns the id).
    pub closed spec fn spec_placeholder() -> Self {
        TaskId(0)
    }

    pub fn new(value: i64) -> (id: Self)
        ensures
            id.spec_value() == value,
    {
        TaskId(value)
    }

    /// The placeholder id is the id with value 0.
    pub proof fn lemma_placeholder(id: Self)
        ensures
            id.spec_value() == 0 <==> id == Self::spec_placeholder(),
    {
    }

    /// Ids with the same value are the same id.
    pub proof fn lemma_value_injective(a: Self, b: Self)
        ensures
            a.spec_value() == b.spec_value() <==> a == b,
    {
    }

    pub fn value(&self) -> (v: i64)
        ensures
            v == self.spec_value(),
    {
        self.0
    }
}

impl WorkDayId {
    pub closed spec fn spec_value(self) -> i64 {
        self.0
    }

    /// The placeholder id of a row not stored yet (storage assigns the id).
    pub closed spec fn spec_placeholder() -> Self {
        WorkDayId(0)
    }

    pub fn new(value: i64) -> (id: Self)
        ensures
            id.spec_value() == value,
    {
        WorkDayId(value)
    }

    /// The placeholder id is the id with value 0.
    pub proof fn lemma_placeholder(id: Self)
        ensures
            id.spec_value() == 0 <==> id == Self::spec_placeholder(),
    {
    }

    /// Ids with the same value are the same id.
    pub proof fn lemma_value_injective(a: Self, b: Self)
        ensures
            a.spec_value() == b.spec_value() <==> a == b,
    {
    }

    pub fn value(&self) -> (v: i64)
        ensures
            v == self.spec_value(),
    {
        self.0
    }
}

impl HourIntervalId {
    pub closed spec fn spec_value(self) -> i64 {
        self.0
    }

    /// The placeholder id of a row not stored yet (storage assigns the id).
    pub closed spec fn spec_placeholder() -> Self {
        HourIntervalId(0)
    }

    pub fn new(value: i64) -> (id: Self)
        ensures
            id.spec_value() == value,
    {
        HourIntervalId(value)
    }

    /// The placeholder id is the id with value 0.
    pub proof fn lemma_placeholder(id: Self)
        ensures
            id.spec_value() == 0 <==> id == Self::spec_placeholder(),
    {
    }

    /// Ids with the same value are the same id.
    pub proof fn lemma_value_injective(a: Self, b: Self)
        ensures
            a.spec_value() == b.spec_value() <==> a == b,
    {
    }

    pub fn value(&self) -> (v: i64)
        ensures
            v == self.spec_value(),
    {
        self.0
    }
}

impl TenMinCheckId {
    pub closed spec fn spec_value(self) -> i64 {
        self.0
    }

    /// The placeholder id of a row not stored yet (storage assigns the id).
    pub closed spec fn spec_placeholder() -> Self {
        TenMinCheckId(0)
    }

    pub fn new(value: i64) -> (id: Self)
        ensures
            id.spec_value() == value,
    {
        TenMinCheckId(value)
    }

    /// The placeholder id is the id with value 0.
    pub proof fn lemma_placeholder(id: Self)
        ensures
            id.spec_value() == 0 <==> id == Self::spec_placeholder(),
    {
    }

    /// Ids with the same value are the same id.
    pub proof fn lemma_value_injective(a: Self, b: Self)
        ensures
            a.spec_value() == b.spec_value() <==> a == b,
    {
    }

    pub fn value(&self) -> (v: i64)
        ensures
            v == self.spec_value(),
    {
        self.0
    }
}

impl From<i64> for TaskId {
    fn from(value: i64) -> (id: Self) {
        TaskId(value)
    }
}

impl vstd::std_specs::convert::FromSpecImpl<i64> for TaskId {
    open spec fn obeys_from_spec() -> bool {
        true
    }

    closed spec fn from_spec(v: i64) -> Self {
        TaskId(v)
    }
}

impl From<i64> for WorkDayId {
    fn from(value: i64) -> (id: Self) {
        WorkDayId(value)
    }
}

impl vstd::std_specs::convert::FromSpecImpl<i64> for WorkDayId {
    open spec fn obeys_from_spec() -> bool {
        true
    }

    closed spec fn from_spec(v: i64) -> Self {
        WorkDayId(v)
    }
}

impl From<i64> for HourIntervalId {
    fn from(value: i64) -> (id: Self) {
        HourIntervalId(value)
    }
}

impl vstd::std_specs::convert::FromSpecImpl<i64> for HourIntervalId {
    open spec fn obeys_from_spec() -> bool {
        true
    }

    closed spec fn from_spec(v: i64) -> Self {
        HourIntervalId(v)
    }
}

impl From<i64> for TenMinCheckId {
    fn from(value: i64) -> (id: Self) {
        TenMinCheckId(value)
    }
}

impl vstd::std_specs::convert::FromSpecImpl<i64> for TenMinCheckId {
    open spec fn obeys_from_spec() -> bool {
        true
    }

    closed spec fn from_spec(v: i64) -> Self {
        TenMinCheckId(v)
    }
}

} // verus!
