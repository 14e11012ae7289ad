//! A table of random values: its scan, the plan that the scan yields, and the
//! stream of batches that the plan produces.

use rand::rngs::StdRng;
use rand::{Rng, SeedableRng};
use vstd::prelude::*;

use crate::filter::DisplayFormatType;
use crate::schema::{DataType, Field, Schema};
use crate::values::copy_vec;

verus! {

/// The random number generator of the standard kind of the `rand` crate.
#[verifier::external_type_specification]
#[verifier::external_body]
pub struct ExStdRng(StdRng);

/// Calls `SeedableRng::seed_from_u64` for `StdRng`: a generator seeded with
/// `seed`. Nothing is stated of the generator.
#[verifier::external_body]
fn seeded_rng(seed: u64) -> StdRng {
    StdRng::seed_from_u64(seed)
}

/// Calls `Rng::random::<i32>` on the generator: the next random `i32`. It
/// may be any value, so nothing is stated of it.
#[verifier::external_body]
fn random_i32(rng: &mut StdRng) -> i32 {
    rng.random::<i32>()
}

/// The kind of a table, as a catalog reports it.
#[derive(Debug, Clone, Copy, PartialEq, Eq, Structural)]
pub enum TableType {
    Base,
    View,
    Temporary,
}

/// A table of `num_rows` random rows of the given schema, drawn from a
/// generator seeded with `seed`.
#[derive(Debug)]
pub struct RandomTable {
    pub num_rows: usize,
    pub schema: Schema,
    pub seed: usize,
}

/// The plan that scans a random table.
#[derive(Debug)]
pub struct RandomTableExec {
    pub schema: Schema,
    pub projection: Option<Vec<usize>>,
    pub num_rows: usize,
    pub seed: usize,
}

/// The stream of batches of a random table: `limit` rows in all, at most
/// `batch_size` at a time.
pub struct RandomStream {
    pub schema: Schema,
    pub produced: usize,
    pub limit: usize,
    pub batch_size: usize,
    pub rng_gen: StdRng,
    /// The seed that the generator was made with.
    pub seed: Ghost<u64>,
    /// Every `i32` drawn from the generator through the stream, in the order
    /// of the draws.
    pub int32_draws: Ghost<Seq<i32>>,
}

/// The number of rows that a random stream hands out at most at a time.
pub const BATCH_SIZE: usize = 128;

/// The items of `s` at the positions `p`, or `s` itself without a projection.
pub open spec fn project<T>(s: Seq<T>, projection: Option<Seq<usize>>) -> Seq<T> {
    match projection {
        Some(p) => p.map_values(|i: usize| s[i as int]),
        None => s,
    }
}

/// Every index of the projection is a position of a sequence of length `n`.
pub open spec fn projection_in_range(projection: Option<Seq<usize>>, n: nat) -> bool {
    match projection {
        Some(p) => forall|k: int| 0 <= k < p.len() ==> p[k] < n,
        None => true,
    }
}

/// The view of an optional vector of indices.
pub open spec fn opt_view(projection: Option<Vec<usize>>) -> Option<Seq<usize>> {
    match projection {
        Some(p) => Some(p@),
        None => None,
    }
}

/// The number of rows of the next batch: `None` once `limit` rows have been
/// produced, otherwise what is left, but at most `batch_size`.
pub open spec fn next_batch_len(produced: nat, limit: nat, batch_size: nat) -> Option<nat> {
    if produced >= limit {
        None
    } else if batch_size <= limit - produced {
        Some(batch_size)
    } else {
        Some((limit - produced) as nat)
    }
}

/// The lengths of the batches that a stream hands out from `produced` rows on.
pub open spec fn batch_lengths(produced: nat, limit: nat, batch_size: nat) -> Seq<nat>
    decreases limit - produced,
    when batch_size > 0
{
    match next_batch_len(produced, limit, batch_size) {
        None => Seq::empty(),
        Some(n) => seq![n] + batch_lengths(produced + n, limit, batch_size),
    }
}

/// The sum of a sequence of lengths.
pub open spec fn total(s: Seq<nat>) -> nat
    decreases s.len(),
{
    if s.len() == 0 {
        0
    } else {
        s[0] + total(s.drop_first())
    }
}


/// From `produced` rows on, a stream hands out batches of between 1 and
/// `batch_size` rows that add up to the `limit - produced` rows left, in
/// `ceil((limit - produced) / batch_size)` batches.
pub proof fn law_batches_cover_limit(produced: nat, limit: nat, batch_size: nat)
    requires
        batch_size > 0,
        produced <= limit,
    ensures
        total(batch_lengths(produced, limit, batch_size)) == limit - produced,
        forall|k: int| 0 <= k < batch_lengths(produced, limit, batch_size).len()
            ==> 1 <= #[trigger] batch_lengths(produced, limit, batch_size)[k] <= batch_size,
        batch_lengths(produced, limit, batch_size).len() == (limit - produced + batch_size - 1) / batch_size as int,
    decreases limit - produced,
{
    let s = batch_lengths(produced, limit, batch_size);
    if produced < limit {
        let n = next_batch_len(produced, limit, batch_size).unwrap();
        law_batches_cover_limit(produced + n, limit, batch_size);
        let rest = batch_lengths(produced + n, limit, batch_size);
        assert(s == seq![n] + rest);
        assert(s.drop_first() =~= rest);
        assert forall|k: int| 0 <= k < s.len() implies 1 <= #[trigger] s[k] <= batch_size by {
            if k > 0 {
                assert(s[k] == rest[k - 1]);
            }
        }
        let left = (limit - produced) as int;
        let b = batch_size as int;
        if n == batch_size {
            assert((left - b + b - 1) / b == (left + b - 1) / b - 1) by (nonlinear_arith)
                requires b > 0, left >= b;
        } else {
            assert(left < b);
            assert((left + b - 1) / b == 1) by (nonlinear_arith)
                requires b > 0, 0 < left < b;
            assert(rest.len() == 0);
        }
    } else {
        assert((batch_size - 1) / batch_size as int == 0) by (nonlinear_arith)
            requires batch_size > 0;
    }
}

/// Polling a stream walks its batch lengths: the next batch has the first
/// length, and once it is handed out the rest follow; a stream that hands out
/// nothing more has no batch left.
pub proof fn law_stream_step(produced: nat, limit: nat, batch_size: nat)
    requires
        batch_size > 0,
    ensures
        next_batch_len(produced, limit, batch_size) matches Some(n) ==> batch_lengths(produced, limit, batch_size)
            == seq![n] + batch_lengths(produced + n, limit, batch_size),
        next_batch_len(produced, limit, batch_size) is None ==> batch_lengths(produced, limit, batch_size)
            == Seq::<nat>::empty(),
{
}

/// Projecting onto the positions `0..len` keeps a sequence as it is.
pub proof fn law_project_identity<T>(s: Seq<T>)
    requires
        s.len() <= usize::MAX,
    ensures
        project(s, Some(Seq::new(s.len(), |i: int| i as usize))) == s,
{
    assert(project(s, Some(Seq::new(s.len(), |i: int| i as usize))) =~= s);
}

/// Projecting with `p` and then with `q` projects with the positions of `p`
/// that `q` picks.
pub proof fn law_project_twice<T>(s: Seq<T>, p: Seq<usize>, q: Seq<usize>)
    requires
        forall|k: int| 0 <= k < q.len() ==> q[k] < p.len(),
    ensures
        project(project(s, Some(p)), Some(q)) == project(s, Some(q.map_values(|k: usize| p[k as int]))),
{
    assert(project(project(s, Some(p)), Some(q)) =~= project(s, Some(q.map_values(|k: usize| p[k as int]))));
}

/// The schema of the fields at the positions of the projection, or a copy of
/// the whole schema without one.
pub fn project_schema(schema: &Schema, projection: &Option<Vec<usize>>) -> (res: Schema)
    requires
        projection_in_range(opt_view(*projection), schema.fields@.len()),
    ensures
        res.types() == project(schema.types(), opt_view(*projection)),
        res.names() == project(schema.names(), opt_view(*projection)),
        res.nullables() == project(schema.nullables(), opt_view(*projection)),
{
    match projection {
        None => schema.duplicate(),
        Some(indices) => {
            assert(opt_view(*projection) == Some(indices@));
            assert(projection_in_range(Some(indices@), schema.fields@.len()));
            assert(forall|j: int| 0 <= j < indices@.len() ==> indices@[j] < schema.fields@.len());
            let mut fields: Vec<Field> = Vec::new();
            for k in 0..indices.len()
                invariant
                    forall|j: int| 0 <= j < indices@.len() ==> indices@[j] < schema.fields@.len(),
                    fields@.len() == k,
                    k <= indices@.len(),
                    forall|j: int| 0 <= j < k ==> (#[trigger] fields@[j]).data_type
                        == schema.fields@[indices@[j] as int].data_type
                        && fields@[j].name@ == schema.fields@[indices@[j] as int].name@
                        && fields@[j].nullable == schema.fields@[indices@[j] as int].nullable,
            {
                fields.push(schema.fields[indices[k]].duplicate());
            }
            let res = Schema { fields };
            assert(res.types() =~= project(schema.types(), opt_view(*projection)));
            assert(res.names() =~= project(schema.names(), opt_view(*projection)));
            assert(res.nullables() =~= project(schema.nullables(), opt_view(*projection)));
            res
        },
    }
}

impl RandomTable {
    pub fn new(schema: Schema, num_rows: usize, seed: usize) -> (res: RandomTable)
        ensures
            res.schema == schema,
            res.num_rows == num_rows,
            res.seed == seed,
    {
        RandomTable { num_rows, schema, seed }
    }

    /// A copy of the table's schema.
    pub fn schema(&self) -> (res: Schema)
        ensures
            res.same_fields(self.schema),
    {
        self.schema.duplicate()
    }

    /// A random table is a base table.
    pub fn table_type(&self) -> (res: TableType)
        ensures
            res == TableType::Base,
    {
        TableType::Base
    }

    /// The plan that scans the table: it yields `limit` rows where a limit is
    /// given, all the table's rows otherwise, of the projected fields.
    pub fn scan(&self, projection: Option<&Vec<usize>>, limit: Option<usize>) -> (res: RandomTableExec)
        requires
            projection matches Some(p) ==> forall|k: int| 0 <= k < p@.len() ==> p@[k] < self.schema.fields@.len(),
        ensures
            res.num_rows == (match limit {
                Some(n) => n,
                None => self.num_rows,
            }),
            res.seed == self.seed,
            opt_view(res.projection) == (match projection {
                Some(p) => Some(p@),
                None => None::<Seq<usize>>,
            }),
            res.schema.types() == project(self.schema.types(), opt_view(res.projection)),
            res.schema.names() == project(self.schema.names(), opt_view(res.projection)),
            res.schema.nullables() == project(self.schema.nullables(), opt_view(res.projection)),
    {
        let num_rows = match limit {
            Some(n) => n,
            None => self.num_rows,
        };
        let projection = match projection {
            Some(p) => Some(copy_vec(p)),
            None => None,
        };
        let schema = self.schema.duplicate();
        assert(schema.types().len() == schema.fields@.len());
        assert(self.schema.types().len() == self.schema.fields@.len());
        RandomTableExec::new(schema, self.seed, num_rows, projection)
    }
}

impl RandomTableExec {
    /// The plan over the projected fields of `schema`.
    pub fn new(schema: Schema, seed: usize, num_rows: usize, projection: Option<Vec<usize>>) -> (res: RandomTableExec)
        requires
            projection_in_range(opt_view(projection), schema.fields@.len()),
        ensures
            res.schema.types() == project(schema.types(), opt_view(projection)),
            res.schema.names() == project(schema.names(), opt_view(projection)),
            res.schema.nullables() == project(schema.nullables(), opt_view(projection)),
            opt_view(res.projection) == opt_view(projection),
            res.num_rows == num_rows,
            res.seed == seed,
    {
        let projected = project_schema(&schema, &projection);
        RandomTableExec { schema: projected, num_rows, seed, projection }
    }

    pub fn name(&self) -> (res: &'static str)
        ensures
            res@ == "random table"@,
    {
        "random table"
    }

    /// The text that shows the plan.
    pub fn fmt_as(&self, t: DisplayFormatType) -> (res: String)
        ensures
            t != DisplayFormatType::TreeRender ==> res@ == "RandomTableExec"@,
            t == DisplayFormatType::TreeRender ==> res@ == Seq::<char>::empty(),
    {
        match t {
            DisplayFormatType::TreeRender => String::new(),
            _ => String::from_str("RandomTableExec"),
        }
    }

    /// The stream of the plan's rows; every partition yields the same rows.
    pub fn execute(&self, partition: usize) -> (res: RandomStream)
        ensures
            res.schema.same_fields(self.schema),
            res.produced == 0,
            res.limit == self.num_rows,
            res.batch_size == BATCH_SIZE,
            res.wf(),
            res.seed@ == self.seed as u64,
            res.int32_draws@ == Seq::<i32>::empty(),
    {
        RandomStream::new(self.schema.duplicate(), self.seed, self.num_rows)
    }
}

impl RandomStream {
    /// The stream hands out batches of at least one row and has not handed out
    /// more than its limit.
    pub open spec fn wf(self) -> bool {
        self.batch_size > 0 && self.produced <= self.limit
    }

    /// A stream of `num_rows` rows from a generator seeded with `seed`.
    pub fn new(schema: Schema, seed: usize, num_rows: usize) -> (res: RandomStream)
        ensures
            res.schema == schema,
            res.produced == 0,
            res.limit == num_rows,
            res.batch_size == BATCH_SIZE,
            res.wf(),
            res.seed@ == seed as u64,
            res.int32_draws@ == Seq::<i32>::empty(),
    {
        let seed = seed as u64;
        RandomStream {
            schema,
            produced: 0,
            limit: num_rows,
            batch_size: BATCH_SIZE,
            rng_gen: seeded_rng(seed),
            seed: Ghost(seed),
            int32_draws: Ghost(Seq::empty()),
        }
    }

    pub fn schema(&self) -> (res: &Schema)
        ensures
            *res == self.schema,
    {
        &self.schema
    }

    /// The number of rows of the next batch, `None` once the stream is done.
    pub fn next_batch_len(&self) -> (res: Option<usize>)
        requires
            self.wf(),
        ensures
            res matches Some(n) ==> 0 < n <= self.batch_size && self.produced + n <= self.limit,
            match res {
                Some(n) => next_batch_len(self.produced as nat, self.limit as nat, self.batch_size as nat) == Some(n as nat),
                None => next_batch_len(self.produced as nat, self.limit as nat, self.batch_size as nat) == None::<nat>,
            },
    {
        if self.produced >= self.limit {
            return None;
        }
        let left = self.limit - self.produced;
        if self.batch_size <= left {
            Some(self.batch_size)
        } else {
            Some(left)
        }
    }

    /// Records that a batch of `n` rows was handed out.
    pub fn advance(&mut self, n: usize)
        requires
            old(self).wf(),
            old(self).produced + n <= old(self).limit,
        ensures
            final(self).wf(),
            final(self).produced == old(self).produced + n,
            final(self).limit == old(self).limit,
            final(self).batch_size == old(self).batch_size,
            final(self).schema == old(self).schema,
            final(self).seed == old(self).seed,
            final(self).int32_draws == old(self).int32_draws,
    {
        self.produced = self.produced + n;
    }

    /// The next random `i32` of the stream's generator, recorded among its draws.
    fn draw_int32(&mut self) -> (res: i32)
        ensures
            final(self).int32_draws@ == old(self).int32_draws@.push(res),
            final(self).produced == old(self).produced,
            final(self).limit == old(self).limit,
            final(self).batch_size == old(self).batch_size,
            final(self).schema == old(self).schema,
            final(self).seed == old(self).seed,
    {
        let v = random_i32(&mut self.rng_gen);
        proof {
            self.int32_draws@ = self.int32_draws@.push(v);
        }
        v
    }

    /// `n` random values for an `Int32` column: `n` successive draws from the
    /// stream's generator, one per row, in the order drawn.
    pub fn random_int32_values(&mut self, n: usize) -> (res: Vec<i32>)
        ensures
            res@.len() == n,
            final(self).int32_draws@ == old(self).int32_draws@ + res@,
            final(self).produced == old(self).produced,
            final(self).limit == old(self).limit,
            final(self).batch_size == old(self).batch_size,
            final(self).schema == old(self).schema,
            final(self).seed == old(self).seed,
    {
        let mut values: Vec<i32> = Vec::new();
        for i in 0..n
            invariant
                values@.len() == i,
                self.int32_draws@ == old(self).int32_draws@ + values@,
                self.produced == old(self).produced,
                self.limit == old(self).limit,
                self.batch_size == old(self).batch_size,
                self.schema == old(self).schema,
                self.seed == old(self).seed,
        {
            let v = self.draw_int32();
            values.push(v);
            assert(self.int32_draws@ =~= old(self).int32_draws@ + values@);
        }
        values
    }
}

} // verus!
