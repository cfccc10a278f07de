use vstd::prelude::*;
use crate::codegen::ocaml::ocaml_ast::{
    fields_of_record, CamlField, CamlFieldView, CamlType, CamlTypeView, CamlVariant,
    CamlVariantView,
};
use crate::text::chars_of;

verus! {

/// How one value stands to another in an order.
#[derive(Clone, Copy, Debug, PartialEq, Eq, Structural)]
pub enum Rank {
    Before,
    Same,
    After,
}

impl Rank {
    /// This rank where it decides, else `next`.
    pub open spec fn or(self, next: Rank) -> Rank {
        if self is Same {
            next
        } else {
            self
        }
    }
}

/// How the number `a` stands to the number `b`.
pub open spec fn rank_of(a: int, b: int) -> Rank {
    if a < b {
        Rank::Before
    } else if a > b {
        Rank::After
    } else {
        Rank::Same
    }
}

/// How the text `a` stands to the text `b`: by the first character in
/// which they differ; a text stands before each longer text that starts
/// with it.
pub open spec fn rank_texts(a: Seq<char>, b: Seq<char>) -> Rank
    decreases a.len(),
{
    if a.len() == 0 {
        if b.len() == 0 {
            Rank::Same
        } else {
            Rank::Before
        }
    } else if b.len() == 0 {
        Rank::After
    } else {
        rank_of(a[0] as int, b[0] as int).or(rank_texts(a.drop_first(), b.drop_first()))
    }
}

/// No text stands before a text that is there.
pub open spec fn rank_optional_texts(a: Option<Seq<char>>, b: Option<Seq<char>>) -> Rank {
    match (a, b) {
        (None, None) => Rank::Same,
        (None, Some(_)) => Rank::Before,
        (Some(_), None) => Rank::After,
        (Some(x), Some(y)) => rank_texts(x, y),
    }
}

/// The place of the form of a type among the four forms.
pub open spec fn form_of_type(t: CamlTypeView) -> int {
    match t {
        CamlTypeView::Reference { .. } => 0,
        CamlTypeView::Abstract(_) => 1,
        CamlTypeView::Variant { .. } => 2,
        CamlTypeView::Record { .. } => 3,
    }
}

/// How the type `a` stands to the type `b`: by their forms, and between
/// two of one form by their parts in order.
pub open spec fn rank_types(a: CamlTypeView, b: CamlTypeView) -> Rank
    decreases a,
{
    match (a, b) {
        (
            CamlTypeView::Reference { module: m1, name: n1 },
            CamlTypeView::Reference { module: m2, name: n2 },
        ) => rank_texts(m1, m2).or(rank_texts(n1, n2)),
        (CamlTypeView::Abstract(n1), CamlTypeView::Abstract(n2)) => rank_texts(n1, n2),
        (
            CamlTypeView::Variant { name: n1, variants: v1 },
            CamlTypeView::Variant { name: n2, variants: v2 },
        ) => rank_texts(n1, n2).or(rank_variant_lists(v1, v2)),
        (
            CamlTypeView::Record { name: n1, record: r1 },
            CamlTypeView::Record { name: n2, record: r2 },
        ) => rank_texts(n1, n2).or(rank_field_lists(r1.fields, r2.fields)),
        _ => rank_of(form_of_type(a), form_of_type(b)),
    }
}

/// How one list of types stands to another: by the first place in which
/// they differ; a list stands before each longer list that starts with it.
pub open spec fn rank_type_lists(a: Seq<CamlTypeView>, b: Seq<CamlTypeView>) -> Rank
    decreases a,
{
    if a.len() == 0 {
        if b.len() == 0 {
            Rank::Same
        } else {
            Rank::Before
        }
    } else if b.len() == 0 {
        Rank::After
    } else {
        rank_types(a[0], b[0]).or(rank_type_lists(a.drop_first(), b.drop_first()))
    }
}

/// How the variant `a` stands to the variant `b`: a constructor stands
/// before an inline record.
pub open spec fn rank_variants(a: CamlVariantView, b: CamlVariantView) -> Rank
    decreases a,
{
    match (a, b) {
        (CamlVariantView::Constructor(t1), CamlVariantView::Constructor(t2)) => rank_type_lists(
            t1,
            t2,
        ),
        (CamlVariantView::InlineRecord(r1), CamlVariantView::InlineRecord(r2)) => rank_field_lists(
            r1.fields,
            r2.fields,
        ),
        (CamlVariantView::Constructor(_), CamlVariantView::InlineRecord(_)) => Rank::Before,
        (CamlVariantView::InlineRecord(_), CamlVariantView::Constructor(_)) => Rank::After,
    }
}

/// How one list of variants stands to another.
pub open spec fn rank_variant_lists(a: Seq<CamlVariantView>, b: Seq<CamlVariantView>) -> Rank
    decreases a,
{
    if a.len() == 0 {
        if b.len() == 0 {
            Rank::Same
        } else {
            Rank::Before
        }
    } else if b.len() == 0 {
        Rank::After
    } else {
        rank_variants(a[0], b[0]).or(rank_variant_lists(a.drop_first(), b.drop_first()))
    }
}

/// How the field `a` stands to the field `b`: by their names, then by
/// their comments, then by their types.
pub open spec fn rank_fields(a: CamlFieldView, b: CamlFieldView) -> Rank
    decreases a,
{
    rank_texts(a.name, b.name).or(rank_optional_texts(a.doc, b.doc)).or(
        rank_types(a.type_, b.type_),
    )
}

/// How one list of fields stands to another.
pub open spec fn rank_field_lists(a: Seq<CamlFieldView>, b: Seq<CamlFieldView>) -> Rank
    decreases a,
{
    if a.len() == 0 {
        if b.len() == 0 {
            Rank::Same
        } else {
            Rank::Before
        }
    } else if b.len() == 0 {
        Rank::After
    } else {
        rank_fields(a[0], b[0]).or(rank_field_lists(a.drop_first(), b.drop_first()))
    }
}

/// How the text `a` stands to the text `b`.
pub fn compare_texts(a: &[char], b: &[char]) -> (r: Rank)
    ensures
        r == rank_texts(a@, b@),
{
    let mut i: usize = 0;
    proof {
        assert(a@.skip(0) =~= a@);
        assert(b@.skip(0) =~= b@);
    }
    loop
        invariant
            i <= a.len(),
            i <= b.len(),
            rank_texts(a@, b@) == rank_texts(a@.skip(i as int), b@.skip(i as int)),
        decreases a.len() - i,
    {
        if i == a.len() {
            return if i == b.len() {
                Rank::Same
            } else {
                Rank::Before
            };
        }
        if i == b.len() {
            return Rank::After;
        }
        proof {
            assert(a@.skip(i as int).drop_first() =~= a@.skip(i + 1));
            assert(b@.skip(i as int).drop_first() =~= b@.skip(i + 1));
        }
        if a[i] < b[i] {
            return Rank::Before;
        }
        if a[i] > b[i] {
            return Rank::After;
        }
        i += 1;
    }
}

/// How the string `a` stands to the string `b`.
pub fn compare_strings(a: &String, b: &String) -> (r: Rank)
    ensures
        r == rank_texts(a@, b@),
{
    let x = chars_of(a.as_str());
    let y = chars_of(b.as_str());
    compare_texts(x.as_slice(), y.as_slice())
}

/// How the optional string `a` stands to the optional string `b`.
pub fn compare_optional_strings(a: &Option<String>, b: &Option<String>) -> (r: Rank)
    ensures
        r == rank_optional_texts(crate::text::optional_text(*a), crate::text::optional_text(*b)),
{
    match (a, b) {
        (None, None) => Rank::Same,
        (None, Some(_)) => Rank::Before,
        (Some(_), None) => Rank::After,
        (Some(x), Some(y)) => compare_strings(x, y),
    }
}

/// How the type `a` stands to the type `b`.
pub fn compare_types(a: &CamlType, b: &CamlType) -> (r: Rank)
    ensures
        r == rank_types(a@, b@),
    decreases a,
{
    match (a, b) {
        (
            CamlType::Reference { module: m1, name: n1 },
            CamlType::Reference { module: m2, name: n2 },
        ) => {
            let first = compare_strings(&m1.0, &m2.0);
            if first == Rank::Same {
                compare_strings(n1, n2)
            } else {
                first
            }
        },
        (CamlType::Abstract(n1), CamlType::Abstract(n2)) => compare_strings(n1, n2),
        (
            CamlType::Variant { name: n1, variants: v1 },
            CamlType::Variant { name: n2, variants: v2 },
        ) => {
            proof {
                assert(a@->Variant_variants =~= v1.deep_view());
                assert(b@->Variant_variants =~= v2.deep_view());
            }
            let first = compare_strings(n1, n2);
            if first == Rank::Same {
                compare_variant_lists(v1, v2)
            } else {
                first
            }
        },
        (CamlType::Record { name: n1, record: r1 }, CamlType::Record { name: n2, record: r2 }) => {
            proof {
                fields_of_record(*r1);
                fields_of_record(*r2);
            }
            let first = compare_strings(n1, n2);
            if first == Rank::Same {
                compare_field_lists(&r1.fields, &r2.fields)
            } else {
                first
            }
        },
        _ => {
            let x = form_number(a);
            let y = form_number(b);
            if x < y {
                Rank::Before
            } else if x > y {
                Rank::After
            } else {
                Rank::Same
            }
        },
    }
}

fn form_number(t: &CamlType) -> (r: u8)
    ensures
        r == form_of_type(t@),
{
    match t {
        CamlType::Reference { .. } => 0,
        CamlType::Abstract(_) => 1,
        CamlType::Variant { .. } => 2,
        CamlType::Record { .. } => 3,
    }
}

/// How one list of types stands to another.
pub fn compare_type_lists(a: &Vec<CamlType>, b: &Vec<CamlType>) -> (r: Rank)
    ensures
        r == rank_type_lists(a.deep_view(), b.deep_view()),
    decreases a,
{
    let ghost x = a.deep_view();
    let ghost y = b.deep_view();
    let mut i: usize = 0;
    proof {
        assert(x.skip(0) =~= x);
        assert(y.skip(0) =~= y);
    }
    loop
        invariant
            i <= a.len(),
            i <= b.len(),
            x == a.deep_view(),
            y == b.deep_view(),
            rank_type_lists(x, y) == rank_type_lists(x.skip(i as int), y.skip(i as int)),
        decreases a.len() - i,
    {
        if i == a.len() {
            return if i == b.len() {
                Rank::Same
            } else {
                Rank::Before
            };
        }
        if i == b.len() {
            return Rank::After;
        }
        proof {
            assert(x.skip(i as int).drop_first() =~= x.skip(i + 1));
            assert(y.skip(i as int).drop_first() =~= y.skip(i + 1));
        }
        let here = compare_types(&a[i], &b[i]);
        if here != Rank::Same {
            return here;
        }
        i += 1;
    }
}

/// How the variant `a` stands to the variant `b`.
pub fn compare_variants(a: &CamlVariant, b: &CamlVariant) -> (r: Rank)
    ensures
        r == rank_variants(a@, b@),
    decreases a,
{
    match (a, b) {
        (CamlVariant::Constructor(t1), CamlVariant::Constructor(t2)) => {
            proof {
                assert(a@->Constructor_0 =~= t1.deep_view());
                assert(b@->Constructor_0 =~= t2.deep_view());
            }
            compare_type_lists(t1, t2)
        },
        (CamlVariant::InlineRecord(r1), CamlVariant::InlineRecord(r2)) => {
            proof {
                fields_of_record(*r1);
                fields_of_record(*r2);
            }
            compare_field_lists(&r1.fields, &r2.fields)
        },
        (CamlVariant::Constructor(_), CamlVariant::InlineRecord(_)) => Rank::Before,
        (CamlVariant::InlineRecord(_), CamlVariant::Constructor(_)) => Rank::After,
    }
}

/// How one list of variants stands to another.
pub fn compare_variant_lists(a: &Vec<CamlVariant>, b: &Vec<CamlVariant>) -> (r: Rank)
    ensures
        r == rank_variant_lists(a.deep_view(), b.deep_view()),
    decreases a,
{
    let ghost x = a.deep_view();
    let ghost y = b.deep_view();
    let mut i: usize = 0;
    proof {
        assert(x.skip(0) =~= x);
        assert(y.skip(0) =~= y);
    }
    loop
        invariant
            i <= a.len(),
            i <= b.len(),
            x == a.deep_view(),
            y == b.deep_view(),
            rank_variant_lists(x, y) == rank_variant_lists(x.skip(i as int), y.skip(i as int)),
        decreases a.len() - i,
    {
        if i == a.len() {
            return if i == b.len() {
                Rank::Same
            } else {
                Rank::Before
            };
        }
        if i == b.len() {
            return Rank::After;
        }
        proof {
            assert(x.skip(i as int).drop_first() =~= x.skip(i + 1));
            assert(y.skip(i as int).drop_first() =~= y.skip(i + 1));
        }
        let here = compare_variants(&a[i], &b[i]);
        if here != Rank::Same {
            return here;
        }
        i += 1;
    }
}

/// How the field `a` stands to the field `b`.
pub fn compare_fields(a: &CamlField, b: &CamlField) -> (r: Rank)
    ensures
        r == rank_fields(a@, b@),
    decreases a,
{
    let by_name = compare_strings(&a.name, &b.name);
    if by_name != Rank::Same {
        return by_name;
    }
    let by_doc = compare_optional_strings(&a.doc, &b.doc);
    if by_doc != Rank::Same {
        return by_doc;
    }
    compare_types(&a.type_, &b.type_)
}

/// How one list of fields stands to another.
pub fn compare_field_lists(a: &Vec<CamlField>, b: &Vec<CamlField>) -> (r: Rank)
    ensures
        r == rank_field_lists(a.deep_view(), b.deep_view()),
    decreases a,
{
    let ghost x = a.deep_view();
    let ghost y = b.deep_view();
    let mut i: usize = 0;
    proof {
        assert(x.skip(0) =~= x);
        assert(y.skip(0) =~= y);
    }
    loop
        invariant
            i <= a.len(),
            i <= b.len(),
            x == a.deep_view(),
            y == b.deep_view(),
            rank_field_lists(x, y) == rank_field_lists(x.skip(i as int), y.skip(i as int)),
        decreases a.len() - i,
    {
        if i == a.len() {
            return if i == b.len() {
                Rank::Same
            } else {
                Rank::Before
            };
        }
        if i == b.len() {
            return Rank::After;
        }
        proof {
            assert(x.skip(i as int).drop_first() =~= x.skip(i + 1));
            assert(y.skip(i as int).drop_first() =~= y.skip(i + 1));
        }
        let here = compare_fields(&a[i], &b[i]);
        if here != Rank::Same {
            return here;
        }
        i += 1;
    }
}

/// Where the field at place `x` goes into `order`, a list of places of
/// fields: behind the last field that does not stand after it.
pub open spec fn insertion_point(fields: Seq<CamlFieldView>, order: Seq<int>, x: int) -> int
    decreases order.len(),
{
    if order.len() == 0 {
        0
    } else if rank_fields(fields[order.last()], fields[x]) is After {
        insertion_point(fields, order.drop_last(), x)
    } else {
        order.len() as int
    }
}

/// The places of the first `n` fields in the order in which the fields
/// stand to each other; fields that stand the same keep the order in which
/// they were given. Each field is put into the order of those before it.
pub open spec fn sorted_order(fields: Seq<CamlFieldView>, n: nat) -> Seq<int>
    decreases n,
{
    if n == 0 {
        Seq::empty()
    } else {
        let earlier = sorted_order(fields, (n - 1) as nat);
        earlier.insert(insertion_point(fields, earlier, n - 1), n - 1)
    }
}

/// A field goes to a place within the order.
pub proof fn insertion_point_bounds(fields: Seq<CamlFieldView>, order: Seq<int>, x: int)
    ensures
        0 <= insertion_point(fields, order, x) <= order.len(),
    decreases order.len(),
{
    if order.len() > 0 {
        insertion_point_bounds(fields, order.drop_last(), x);
    }
}

/// The order of `n` fields holds `n` places, each of one of the fields.
pub proof fn sorted_order_bounds(fields: Seq<CamlFieldView>, n: nat)
    ensures
        sorted_order(fields, n).len() == n,
        forall|k: int| 0 <= k < n ==> 0 <= #[trigger] sorted_order(fields, n)[k] < n,
    decreases n,
{
    if n > 0 {
        let earlier = sorted_order(fields, (n - 1) as nat);
        sorted_order_bounds(fields, (n - 1) as nat);
        insertion_point_bounds(fields, earlier, n - 1);
    }
}

/// The places of `order` as numbers.
pub open spec fn places(order: Seq<usize>) -> Seq<int> {
    order.map_values(|place: usize| place as int)
}

/// The places of the fields in the order in which they stand to each
/// other.
pub fn sort_order(fields: &Vec<CamlField>) -> (order: Vec<usize>)
    ensures
        places(order@) == sorted_order(fields.deep_view(), fields.len() as nat),
        order.len() == fields.len(),
        forall|k: int| 0 <= k < order.len() ==> #[trigger] order@[k] < fields.len(),
{
    let ghost views = fields.deep_view();
    let mut order: Vec<usize> = Vec::new();
    let mut n: usize = 0;
    while n < fields.len()
        invariant
            n <= fields.len(),
            views == fields.deep_view(),
            order.len() == n,
            places(order@) == sorted_order(views, n as nat),
            forall|k: int| 0 <= k < order.len() ==> #[trigger] order@[k] < n,
        decreases fields.len() - n,
    {
        let ghost earlier = places(order@);
        let mut p: usize = order.len();
        proof {
            assert(earlier.take(p as int) =~= earlier);
        }
        loop
            invariant
                p <= order.len(),
                order.len() == n,
                n < fields.len(),
                views == fields.deep_view(),
                earlier == places(order@),
                forall|k: int| 0 <= k < order.len() ==> #[trigger] order@[k] < n,
                insertion_point(views, earlier, n as int) == insertion_point(
                    views,
                    earlier.take(p as int),
                    n as int,
                ),
            ensures
                p == insertion_point(views, earlier, n as int),
            decreases p,
        {
            if p == 0 {
                break ;
            }
            proof {
                assert(earlier.take(p as int).drop_last() =~= earlier.take(p - 1));
            }
            let before = order[p - 1];
            if compare_fields(&fields[before], &fields[n]) == Rank::After {
                p -= 1;
            } else {
                break ;
            }
        }
        order.insert(p, n);
        n += 1;
    }
    order
}

} // verus!
