use vstd::prelude::*;
use crate::fixed::{fx_add, fx_mul, lemma_unit_and_zero, spec_add, spec_mul, SCALE};
use crate::tuple::{tuple_dot, Tuple};

verus! {

/// A square grid of fixed-point scalars, stored row by row.
#[derive(Debug)]
pub struct Matrix {
    pub matrix: Vec<Vec<i64>>,
}

/// Every row is as long as there are rows.
pub open spec fn is_square(m: Seq<Seq<i64>>) -> bool {
    forall|i: int| 0 <= i < m.len() ==> #[trigger] m[i].len() == m.len()
}

pub open spec fn identity_rows(n: nat) -> Seq<Seq<i64>> {
    Seq::new(n, |i: int| Seq::new(n, |j: int| if i == j { SCALE } else { 0i64 }))
}

pub open spec fn transpose_rows(m: Seq<Seq<i64>>) -> Seq<Seq<i64>> {
    Seq::new(m.len(), |i: int| Seq::new(m.len(), |j: int| m[j][i]))
}

/// The first `k` terms of row `i` of `a` times column `j` of `b`, summed from the left.
pub open spec fn row_col(a: Seq<Seq<i64>>, b: Seq<Seq<i64>>, i: int, j: int, k: nat) -> int
    decreases k,
{
    if k == 0 {
        0
    } else {
        spec_add(
            row_col(a, b, i, j, (k - 1) as nat),
            spec_mul(a[i][k - 1] as int, b[k - 1][j] as int),
        )
    }
}

/// The matrix product `a * b` of two square grids of one size.
pub open spec fn product_rows(a: Seq<Seq<i64>>, b: Seq<Seq<i64>>) -> Seq<Seq<i64>> {
    Seq::new(a.len(), |i: int| Seq::new(a.len(), |j: int| row_col(a, b, i, j, a.len()) as i64))
}

pub open spec fn row_tuple(r: Seq<i64>) -> Tuple {
    Tuple { x: r[0], y: r[1], z: r[2], w: r[3] }
}

/// The product of a 4x4 grid and the tuple read as a column.
pub open spec fn apply_rows(m: Seq<Seq<i64>>, t: Tuple) -> Tuple {
    Tuple {
        x: tuple_dot(row_tuple(m[0]), t) as i64,
        y: tuple_dot(row_tuple(m[1]), t) as i64,
        z: tuple_dot(row_tuple(m[2]), t) as i64,
        w: tuple_dot(row_tuple(m[3]), t) as i64,
    }
}

impl Matrix {
    pub open spec fn rows(&self) -> Seq<Seq<i64>> {
        self.matrix@.map_values(|r: Vec<i64>| r@)
    }

    pub open spec fn size(&self) -> nat {
        self.matrix@.len()
    }

    pub open spec fn wf(&self) -> bool {
        is_square(self.rows())
    }

    /// A matrix with the given rows, which form a square.
    pub fn init(matrix: Vec<Vec<i64>>) -> (r: Matrix)
        requires
            is_square(matrix@.map_values(|r: Vec<i64>| r@)),
        ensures
            r.rows() == matrix@.map_values(|r: Vec<i64>| r@),
            r.wf(),
    {
        Matrix { matrix }
    }

    /// The `size` x `size` matrix with one on the diagonal and zero elsewhere.
    pub fn identity(size: usize) -> (r: Matrix)
        ensures
            r.rows() == identity_rows(size as nat),
            r.wf(),
            r.size() == size,
    {
        let mut matrix: Vec<Vec<i64>> = Vec::new();
        let mut i: usize = 0;
        while i < size
            invariant
                i <= size,
                matrix@.len() == i,
                forall|a: int| 0 <= a < i ==> #[trigger] matrix@[a]@ == identity_rows(size as nat)[a],
            decreases size - i,
        {
            let mut row: Vec<i64> = Vec::new();
            let mut j: usize = 0;
            while j < size
                invariant
                    j <= size,
                    i < size,
                    row@.len() == j,
                    forall|b: int| 0 <= b < j ==> #[trigger] row@[b] == (if i == b { SCALE } else { 0i64 }),
                decreases size - j,
            {
                if i == j {
                    row.push(SCALE);
                } else {
                    row.push(0);
                }
                j += 1;
            }
            assert(row@ =~= identity_rows(size as nat)[i as int]);
            matrix.push(row);
            i += 1;
        }
        let r = Matrix { matrix };
        assert(r.rows() =~= identity_rows(size as nat));
        r
    }

    /// The entry in row `x`, column `y`.
    pub fn at(&self, x: usize, y: usize) -> (r: i64)
        requires
            self.wf(),
            x < self.size(),
            y < self.size(),
        ensures
            r == self.rows()[x as int][y as int],
    {
        assert(self.rows()[x as int].len() == self.size());
        self.matrix[x][y]
    }

    /// The matrix mirrored across its main diagonal.
    pub fn transpose(&self) -> (r: Matrix)
        requires
            self.wf(),
        ensures
            r.rows() == transpose_rows(self.rows()),
            r.wf(),
            r.size() == self.size(),
    {
        let n = self.matrix.len();
        let mut matrix: Vec<Vec<i64>> = Vec::new();
        let mut i: usize = 0;
        while i < n
            invariant
                i <= n,
                n == self.size(),
                self.wf(),
                matrix@.len() == i,
                forall|a: int| 0 <= a < i ==> #[trigger] matrix@[a]@ == transpose_rows(self.rows())[a],
            decreases n - i,
        {
            let mut row: Vec<i64> = Vec::new();
            let mut j: usize = 0;
            while j < n
                invariant
                    j <= n,
                    i < n,
                    n == self.size(),
                    self.wf(),
                    row@.len() == j,
                    forall|b: int| 0 <= b < j ==> #[trigger] row@[b] == self.rows()[b][i as int],
                decreases n - j,
            {
                assert(self.rows()[j as int].len() == n);
                row.push(self.at(j, i));
                j += 1;
            }
            assert(row@ =~= transpose_rows(self.rows())[i as int]);
            matrix.push(row);
            i += 1;
        }
        let r = Matrix { matrix };
        assert(r.rows() =~= transpose_rows(self.rows()));
        r
    }

    /// The product `self * other`: applied to a tuple, `other` acts first.
    pub fn multiply(&self, other: &Matrix) -> (r: Matrix)
        requires
            self.wf(),
            other.wf(),
            self.size() == other.size(),
        ensures
            r.rows() == product_rows(self.rows(), other.rows()),
            r.wf(),
            r.size() == self.size(),
    {
        let n = self.matrix.len();
        let ghost a = self.rows();
        let ghost b = other.rows();
        let mut matrix: Vec<Vec<i64>> = Vec::new();
        let mut i: usize = 0;
        while i < n
            invariant
                i <= n,
                n == self.size(),
                n == other.size(),
                self.wf(),
                other.wf(),
                a == self.rows(),
                b == other.rows(),
                matrix@.len() == i,
                forall|x: int| 0 <= x < i ==> #[trigger] matrix@[x]@ == product_rows(a, b)[x],
            decreases n - i,
        {
            let mut row: Vec<i64> = Vec::new();
            let mut j: usize = 0;
            while j < n
                invariant
                    j <= n,
                    i < n,
                    n == self.size(),
                    n == other.size(),
                    self.wf(),
                    other.wf(),
                    a == self.rows(),
                    b == other.rows(),
                    row@.len() == j,
                    forall|y: int| 0 <= y < j ==> #[trigger] row@[y] == row_col(a, b, i as int, y, n as nat),
                decreases n - j,
            {
                let mut sum: i64 = 0;
                let mut k: usize = 0;
                while k < n
                    invariant
                        k <= n,
                        i < n,
                        j < n,
                        n == self.size(),
                        n == other.size(),
                        self.wf(),
                        other.wf(),
                        a == self.rows(),
                        b == other.rows(),
                        sum == row_col(a, b, i as int, j as int, k as nat),
                    decreases n - k,
                {
                    assert(a[i as int].len() == n);
                    assert(b[k as int].len() == n);
                    sum = fx_add(sum, fx_mul(self.at(i, k), other.at(k, j)));
                    k += 1;
                }
                row.push(sum);
                j += 1;
            }
            assert(row@ =~= product_rows(a, b)[i as int]);
            matrix.push(row);
            i += 1;
        }
        let r = Matrix { matrix };
        assert(r.rows() =~= product_rows(a, b));
        r
    }

    /// The 4x4 matrix times the tuple read as a column.
    pub fn apply(&self, t: Tuple) -> (r: Tuple)
        requires
            self.wf(),
            self.size() == 4,
        ensures
            r == apply_rows(self.rows(), t),
    {
        let m = &self.matrix;
        assert(self.rows()[0].len() == 4 && self.rows()[1].len() == 4);
        assert(self.rows()[2].len() == 4 && self.rows()[3].len() == 4);
        let r0 = Tuple { x: m[0][0], y: m[0][1], z: m[0][2], w: m[0][3] };
        let r1 = Tuple { x: m[1][0], y: m[1][1], z: m[1][2], w: m[1][3] };
        let r2 = Tuple { x: m[2][0], y: m[2][1], z: m[2][2], w: m[2][3] };
        let r3 = Tuple { x: m[3][0], y: m[3][1], z: m[3][2], w: m[3][3] };
        Tuple { x: r0.dot(t), y: r1.dot(t), z: r2.dot(t), w: r3.dot(t) }
    }
}

/// Moves a point by `(x, y, z)`; a vector stays as it is.
pub open spec fn translation_rows(x: i64, y: i64, z: i64) -> Seq<Seq<i64>> {
    seq![
        seq![SCALE, 0i64, 0i64, x],
        seq![0i64, SCALE, 0i64, y],
        seq![0i64, 0i64, SCALE, z],
        seq![0i64, 0i64, 0i64, SCALE],
    ]
}

/// Stretches each axis by its factor.
pub open spec fn scaling_rows(x: i64, y: i64, z: i64) -> Seq<Seq<i64>> {
    seq![
        seq![x, 0i64, 0i64, 0i64],
        seq![0i64, y, 0i64, 0i64],
        seq![0i64, 0i64, z, 0i64],
        seq![0i64, 0i64, 0i64, SCALE],
    ]
}

/// Rotation about the x axis by the angle whose cosine is `c` and sine is `s`.
pub open spec fn rotation_x_rows(c: i64, s: i64) -> Seq<Seq<i64>> {
    seq![
        seq![SCALE, 0i64, 0i64, 0i64],
        seq![0i64, c, (-s) as i64, 0i64],
        seq![0i64, s, c, 0i64],
        seq![0i64, 0i64, 0i64, SCALE],
    ]
}

/// Rotation about the y axis by the angle whose cosine is `c` and sine is `s`.
pub open spec fn rotation_y_rows(c: i64, s: i64) -> Seq<Seq<i64>> {
    seq![
        seq![c, 0i64, s, 0i64],
        seq![0i64, SCALE, 0i64, 0i64],
        seq![(-s) as i64, 0i64, c, 0i64],
        seq![0i64, 0i64, 0i64, SCALE],
    ]
}

/// Rotation about the z axis by the angle whose cosine is `c` and sine is `s`.
pub open spec fn rotation_z_rows(c: i64, s: i64) -> Seq<Seq<i64>> {
    seq![
        seq![c, (-s) as i64, 0i64, 0i64],
        seq![s, c, 0i64, 0i64],
        seq![0i64, 0i64, SCALE, 0i64],
        seq![0i64, 0i64, 0i64, SCALE],
    ]
}

/// Shear: each coordinate gains the others in the given proportions.
pub open spec fn skew_rows(xy: i64, xz: i64, yx: i64, yz: i64, zx: i64, zy: i64) -> Seq<Seq<i64>> {
    seq![
        seq![SCALE, xy, xz, 0i64],
        seq![yx, SCALE, yz, 0i64],
        seq![zx, zy, SCALE, 0i64],
        seq![0i64, 0i64, 0i64, SCALE],
    ]
}

impl Matrix {
    fn grid(r0: Vec<i64>, r1: Vec<i64>, r2: Vec<i64>, r3: Vec<i64>) -> (r: Matrix)
        requires
            r0@.len() == 4,
            r1@.len() == 4,
            r2@.len() == 4,
            r3@.len() == 4,
        ensures
            r.rows() == seq![r0@, r1@, r2@, r3@],
            r.wf(),
            r.size() == 4,
    {
        let mut matrix: Vec<Vec<i64>> = Vec::new();
        matrix.push(r0);
        matrix.push(r1);
        matrix.push(r2);
        matrix.push(r3);
        let r = Matrix { matrix };
        assert(r.rows() =~= seq![r0@, r1@, r2@, r3@]);
        r
    }

    pub fn translation(x: i64, y: i64, z: i64) -> (r: Matrix)
        ensures
            r.rows() == translation_rows(x, y, z),
            r.wf(),
            r.size() == 4,
    {
        let r = Matrix::grid(
            vec![SCALE, 0, 0, x],
            vec![0, SCALE, 0, y],
            vec![0, 0, SCALE, z],
            vec![0, 0, 0, SCALE],
        );
        assert(r.rows() =~~= translation_rows(x, y, z));
        r
    }

    pub fn scaling(x: i64, y: i64, z: i64) -> (r: Matrix)
        ensures
            r.rows() == scaling_rows(x, y, z),
            r.wf(),
            r.size() == 4,
    {
        let r = Matrix::grid(
            vec![x, 0, 0, 0],
            vec![0, y, 0, 0],
            vec![0, 0, z, 0],
            vec![0, 0, 0, SCALE],
        );
        assert(r.rows() =~~= scaling_rows(x, y, z));
        r
    }

    /// Takes the cosine and sine of the angle; the sine may not be `i64::MIN`.
    pub fn rotation_x(c: i64, s: i64) -> (r: Matrix)
        requires
            s > i64::MIN,
        ensures
            r.rows() == rotation_x_rows(c, s),
            r.wf(),
            r.size() == 4,
    {
        let ns: i64 = -s;
        let r = Matrix::grid(
            vec![SCALE, 0, 0, 0],
            vec![0, c, ns, 0],
            vec![0, s, c, 0],
            vec![0, 0, 0, SCALE],
        );
        assert(r.rows() =~~= rotation_x_rows(c, s));
        r
    }

    /// Takes the cosine and sine of the angle; the sine may not be `i64::MIN`.
    pub fn rotation_y(c: i64, s: i64) -> (r: Matrix)
        requires
            s > i64::MIN,
        ensures
            r.rows() == rotation_y_rows(c, s),
            r.wf(),
            r.size() == 4,
    {
        let ns: i64 = -s;
        let r = Matrix::grid(
            vec![c, 0, s, 0],
            vec![0, SCALE, 0, 0],
            vec![ns, 0, c, 0],
            vec![0, 0, 0, SCALE],
        );
        assert(r.rows() =~~= rotation_y_rows(c, s));
        r
    }

    /// Takes the cosine and sine of the angle; the sine may not be `i64::MIN`.
    pub fn rotation_z(c: i64, s: i64) -> (r: Matrix)
        requires
            s > i64::MIN,
        ensures
            r.rows() == rotation_z_rows(c, s),
            r.wf(),
            r.size() == 4,
    {
        let ns: i64 = -s;
        let r = Matrix::grid(
            vec![c, ns, 0, 0],
            vec![s, c, 0, 0],
            vec![0, 0, SCALE, 0],
            vec![0, 0, 0, SCALE],
        );
        assert(r.rows() =~~= rotation_z_rows(c, s));
        r
    }

    pub fn skew(xy: i64, xz: i64, yx: i64, yz: i64, zx: i64, zy: i64) -> (r: Matrix)
        ensures
            r.rows() == skew_rows(xy, xz, yx, yz, zx, zy),
            r.wf(),
            r.size() == 4,
    {
        let r = Matrix::grid(
            vec![SCALE, xy, xz, 0],
            vec![yx, SCALE, yz, 0],
            vec![zx, zy, SCALE, 0],
            vec![0, 0, 0, SCALE],
        );
        assert(r.rows() =~~= skew_rows(xy, xz, yx, yz, zx, zy));
        r
    }
}

proof fn lemma_row_col_identity(a: Seq<Seq<i64>>, i: int, j: int, k: nat)
    requires
        is_square(a),
        0 <= i < a.len(),
        0 <= j < a.len(),
        k <= a.len(),
    ensures
        row_col(a, identity_rows(a.len()), i, j, k) == (if j < k { a[i][j] as int } else { 0 }),
        row_col(identity_rows(a.len()), a, i, j, k) == (if i < k { a[i][j] as int } else { 0 }),
    decreases k,
{
    let id = identity_rows(a.len());
    if k > 0 {
        lemma_row_col_identity(a, i, j, (k - 1) as nat);
        let p = k - 1;
        assert(a[i].len() == a.len());
        assert(a[p].len() == a.len());
        lemma_unit_and_zero(a[i][p] as int);
        lemma_unit_and_zero(a[p][j] as int);
        lemma_unit_and_zero(a[i][j] as int);
        lemma_unit_and_zero(0);
        assert(id[p][j] == (if p == j { SCALE } else { 0i64 }));
        assert(id[i][p] == (if i == p { SCALE } else { 0i64 }));
    }
}

/// The identity of the same size is neutral for the product, on either side.
pub proof fn lemma_identity_neutral(m: Matrix)
    requires
        m.wf(),
    ensures
        product_rows(m.rows(), identity_rows(m.size())) == m.rows(),
        product_rows(identity_rows(m.size()), m.rows()) == m.rows(),
{
    let a = m.rows();
    let id = identity_rows(m.size());
    assert forall|i: int, j: int| 0 <= i < a.len() && 0 <= j < a.len() implies
        product_rows(a, id)[i][j] == a[i][j] && product_rows(id, a)[i][j] == a[i][j] by {
        lemma_row_col_identity(a, i, j, a.len());
    }
    assert forall|i: int| 0 <= i < a.len() implies #[trigger] product_rows(a, id)[i] =~= a[i] by {
        assert(a[i].len() == a.len());
    }
    assert forall|i: int| 0 <= i < a.len() implies #[trigger] product_rows(id, a)[i] =~= a[i] by {
        assert(a[i].len() == a.len());
    }
    assert(product_rows(a, id) =~= a);
    assert(product_rows(id, a) =~= a);
}

/// Mirroring a square matrix twice gives it back.
pub proof fn lemma_transpose_involutive(m: Matrix)
    requires
        m.wf(),
    ensures
        transpose_rows(transpose_rows(m.rows())) == m.rows(),
{
    let a = m.rows();
    assert forall|i: int| 0 <= i < a.len() implies #[trigger] transpose_rows(transpose_rows(a))[i] =~= a[i] by {
        assert(a[i].len() == a.len());
    }
    assert(transpose_rows(transpose_rows(a)) =~= a);
}

/// A translation moves no vector.
pub proof fn lemma_translation_keeps_vectors(x: i64, y: i64, z: i64, v: Tuple)
    requires
        v.w == 0,
    ensures
        apply_rows(translation_rows(x, y, z), v) == v,
{
    lemma_unit_and_zero(v.x as int);
    lemma_unit_and_zero(v.y as int);
    lemma_unit_and_zero(v.z as int);
    lemma_unit_and_zero(x as int);
    lemma_unit_and_zero(y as int);
    lemma_unit_and_zero(z as int);
    lemma_unit_and_zero(0);
    lemma_unit_and_zero(SCALE as int);
}

impl PartialEq for Matrix {
    fn eq(&self, other: &Matrix) -> (r: bool) {
        if self.matrix.len() != other.matrix.len() {
            return false;
        }
        let n = self.matrix.len();
        let mut i: usize = 0;
        while i < n
            invariant
                i <= n,
                n == self.size(),
                n == other.size(),
                forall|x: int| 0 <= x < i ==> #[trigger] self.rows()[x] == other.rows()[x],
            decreases n - i,
        {
            let len = self.matrix[i].len();
            if len != other.matrix[i].len() {
                assert(self.rows()[i as int].len() != other.rows()[i as int].len());
                return false;
            }
            let mut j: usize = 0;
            while j < len
                invariant
                    j <= len,
                    i < n,
                    n == self.size(),
                    n == other.size(),
                    len == self.rows()[i as int].len(),
                    len == other.rows()[i as int].len(),
                    forall|y: int| 0 <= y < j ==> #[trigger] self.rows()[i as int][y] == other.rows()[i as int][y],
                decreases len - j,
            {
                if self.matrix[i][j] != other.matrix[i][j] {
                    assert(self.rows()[i as int][j as int] != other.rows()[i as int][j as int]);
                    return false;
                }
                j += 1;
            }
            assert(self.rows()[i as int] =~= other.rows()[i as int]);
            i += 1;
        }
        assert(self.rows() =~= other.rows());
        true
    }
}

impl vstd::std_specs::cmp::PartialEqSpecImpl for Matrix {
    open spec fn obeys_eq_spec() -> bool {
        true
    }

    open spec fn eq_spec(&self, other: &Matrix) -> bool {
        self.rows() == other.rows()
    }
}

} // verus!
