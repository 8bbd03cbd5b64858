//! One item or a batch of items.

use vstd::prelude::*;

verus! {

/// Represents either a single item or a batch of items.
///
/// This generalizes over sending one or many requests in the same operation. Use the `From`
/// implementations to convert from `T` or `Vec<T>`.
#[derive(Debug, Clone)]
pub enum MaybeBatch<T> {
    Single(T),
    Batch(Vec<T>),
}

impl<T> MaybeBatch<T> {
    /// The items, in order.
    pub open spec fn items(self) -> Seq<T> {
        match self {
            MaybeBatch::Single(item) => seq![item],
            MaybeBatch::Batch(batch) => batch@,
        }
    }

    /// Whether both are a single item, or both are a batch.
    pub open spec fn same_shape<T2>(self, other: MaybeBatch<T2>) -> bool {
        self is Single <==> other is Single
    }

    /// Converts this `MaybeBatch` into a `Vec<T>`.
    ///
    /// If it is a `Single`, returns a one-element vector. If it is a `Batch`, returns the inner
    /// vector.
    pub fn into_vec(self) -> (items: Vec<T>)
        ensures
            items@ == self.items(),
            self matches MaybeBatch::Single(item) ==> items@ == seq![item],
            self matches MaybeBatch::Batch(batch) ==> items@ == batch@,
    {
        match self {
            MaybeBatch::Single(item) => vec![item],
            MaybeBatch::Batch(batch) => batch,
        }
    }

    /// Pushes a new item into the given `Option<MaybeBatch<T>>`, creating or extending the batch.
    ///
    /// If the option is `None`, it becomes `Some(Single(item))`. If it already contains a value,
    /// it is converted into a `Batch` and the item is appended.
    pub fn push_opt(opt: &mut Option<Self>, item: T)
        ensures
            match *old(opt) {
                None => *final(opt) == Some(MaybeBatch::Single(item)),
                Some(before) => *final(opt) matches Some(MaybeBatch::Batch(after)) && after@
                    == before.items().push(item),
            },
    {
        match opt.take() {
            None => {
                *opt = Some(MaybeBatch::Single(item));
            },
            Some(maybe_batch) => {
                let mut items = maybe_batch.into_vec();
                items.push(item);
                *opt = Some(MaybeBatch::Batch(items));
            },
        }
    }

    /// Applies a function to each item, in order, and keeps the shape.
    pub fn map<T2>(self, f: impl Fn(T) -> T2) -> (mapped: MaybeBatch<T2>)
        requires
            forall|i: int|
                0 <= i < self.items().len() ==> call_requires(f, (#[trigger] self.items()[i],)),
        ensures
            self.same_shape(mapped),
            self is Single <==> mapped is Single,
            mapped.items().len() == self.items().len(),
            forall|i: int|
                0 <= i < self.items().len() ==> call_ensures(
                    f,
                    (self.items()[i],),
                    #[trigger] mapped.items()[i],
                ),
    {
        match self {
            MaybeBatch::Single(item) => {
                assert(self.items()[0] == item);
                MaybeBatch::Single(f(item))
            },
            MaybeBatch::Batch(items) => {
                let mut mapped: Vec<T2> = Vec::new();
                let ghost all = items@;
                assert(all == self.items());
                for item in iter: items.into_iter()
                    invariant
                        iter.seq() == all,
                        all == self.items(),
                        mapped@.len() == iter.index(),
                        forall|i: int|
                            0 <= i < all.len() ==> call_requires(f, (#[trigger] all[i],)),
                        forall|i: int|
                            0 <= i < mapped@.len() ==> call_ensures(
                                f,
                                (all[i],),
                                #[trigger] mapped@[i],
                            ),
                {
                    assert(item == all[iter.index()]);
                    mapped.push(f(item));
                }
                MaybeBatch::Batch(mapped)
            },
        }
    }

    /// Converts each item, in order, and keeps the shape.
    pub fn map_into<T2>(self) -> (mapped: MaybeBatch<T2>) where T: Into<T2>
        ensures
            self.same_shape(mapped),
            self is Single <==> mapped is Single,
            mapped.items().len() == self.items().len(),
            forall|i: int|
                0 <= i < self.items().len() ==> call_ensures(
                    <T as Into<T2>>::into,
                    (self.items()[i],),
                    #[trigger] mapped.items()[i],
                ),
    {
        match self {
            MaybeBatch::Single(item) => MaybeBatch::Single(item.into()),
            MaybeBatch::Batch(items) => {
                let mut mapped: Vec<T2> = Vec::new();
                let ghost all = items@;
                for item in iter: items.into_iter()
                    invariant
                        iter.seq() == all,
                        mapped@.len() == iter.index(),
                        forall|i: int|
                            0 <= i < mapped@.len() ==> call_ensures(
                                <T as Into<T2>>::into,
                                (all[i],),
                                #[trigger] mapped@[i],
                            ),
                {
                    mapped.push(item.into());
                }
                MaybeBatch::Batch(mapped)
            },
        }
    }
}

impl<T> From<T> for MaybeBatch<T> {
    fn from(value: T) -> (batch: Self)
        ensures
            batch == MaybeBatch::Single(value),
    {
        MaybeBatch::Single(value)
    }
}

impl<T> vstd::std_specs::convert::FromSpecImpl<T> for MaybeBatch<T> {
    open spec fn obeys_from_spec() -> bool {
        true
    }

    open spec fn from_spec(value: T) -> Self {
        MaybeBatch::Single(value)
    }
}

impl<T> From<Vec<T>> for MaybeBatch<T> {
    fn from(value: Vec<T>) -> (batch: Self)
        ensures
            batch == MaybeBatch::Batch(value),
    {
        MaybeBatch::Batch(value)
    }
}

impl<T> vstd::std_specs::convert::FromSpecImpl<Vec<T>> for MaybeBatch<T> {
    open spec fn obeys_from_spec() -> bool {
        true
    }

    open spec fn from_spec(value: Vec<T>) -> Self {
        MaybeBatch::Batch(value)
    }
}

/// A single item is the only one, and a batch has exactly its items, in order.
pub proof fn lemma_items<T>(item: T, batch: Vec<T>)
    ensures
        MaybeBatch::Single(item).items().len() == 1,
        MaybeBatch::Single(item).items()[0] == item,
        MaybeBatch::Batch(batch).items().len() == batch@.len(),
        forall|i: int|
            0 <= i < batch@.len() ==> #[trigger] MaybeBatch::Batch(batch).items()[i] == batch@[i],
{
}

/// A single item and a batch are of different shapes, however many items the batch has.
pub proof fn lemma_shapes<T1, T2>(a: MaybeBatch<T1>, b: MaybeBatch<T2>)
    ensures
        a.same_shape(b) <==> (a is Single && b is Single || a is Batch && b is Batch),
{
}

} // verus!
