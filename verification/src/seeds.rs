use vstd::prelude::*;

use crate::crop_parser::extract_content;
use crate::crop_parser::find_column;
use crate::crop_parser::parse_bool_str;
use crate::crop_parser::parse_u32_str;
use crate::crop_parser::spec_csv_decodes;
use crate::crop_parser::spec_csv_rows;
use crate::crop_parser::spec_find_col;
use crate::crop_parser::spec_parse_bool;
use crate::crop_parser::spec_parse_u32;
use crate::errors::FarmError;

verus! {

/// The closed set of plantable species. Each variant carries the free-text
/// verbose name it was resolved from and the botanica catalogue name.
#[derive(Debug)]
pub enum SeedType {
    Sunflower(String, String),
    Pea(String, String),
    Carrot(String, String),
    Tomato(String, String),
    Broccoli(String, String),
}

/// Position of a species in the fixed species list; used to key the
/// per-species statistics breakdown.
pub open spec fn spec_kind_index(seed: SeedType) -> int {
    match seed {
        SeedType::Sunflower(..) => 0,
        SeedType::Pea(..) => 1,
        SeedType::Carrot(..) => 2,
        SeedType::Tomato(..) => 3,
        SeedType::Broccoli(..) => 4,
    }
}

/// How many species the simulation knows.
pub open spec fn species_count() -> int {
    5
}

/// ASCII case folding of one character: uppercase letters map to their
/// lowercase form, everything else is left alone.
pub open spec fn spec_fold_char(c: char) -> char {
    if 65 <= c as u32 && c as u32 <= 90 {
        ((c as u32) + 32) as char
    } else {
        c
    }
}

/// ASCII case folding of a whole string.
pub open spec fn spec_fold(s: Seq<char>) -> Seq<char> {
    s.map_values(|c: char| spec_fold_char(c))
}

/// The species a free-text name resolves to, as an index into the fixed
/// species list; the lookup ignores ASCII case. `None` when the name matches
/// no known species.
pub open spec fn spec_seed_kind(name: Seq<char>) -> Option<int> {
    if spec_fold(name) == spec_fold("sun flower"@) {
        Some(0)
    } else if spec_fold(name) == spec_fold("pea"@) {
        Some(1)
    } else if spec_fold(name) == spec_fold("carrot"@) {
        Some(2)
    } else if spec_fold(name) == spec_fold("tomato"@) {
        Some(3)
    } else if spec_fold(name) == spec_fold("broccoli"@) {
        Some(4)
    } else {
        None
    }
}

/// The free-text name carried by a resolved seed type.
pub open spec fn spec_verbose_name(seed: SeedType) -> Seq<char> {
    match seed {
        SeedType::Sunflower(v, _) => v@,
        SeedType::Pea(v, _) => v@,
        SeedType::Carrot(v, _) => v@,
        SeedType::Tomato(v, _) => v@,
        SeedType::Broccoli(v, _) => v@,
    }
}

/// The botanica catalogue name carried by a resolved seed type.
pub open spec fn spec_botanica_name(seed: SeedType) -> Seq<char> {
    match seed {
        SeedType::Sunflower(_, b) => b@,
        SeedType::Pea(_, b) => b@,
        SeedType::Carrot(_, b) => b@,
        SeedType::Tomato(_, b) => b@,
        SeedType::Broccoli(_, b) => b@,
    }
}

/// True when two characters are equal up to ASCII case.
fn chars_eq_ci(x: char, y: char) -> (r: bool)
    ensures
        r == (spec_fold_char(x) == spec_fold_char(y)),
{
    let xv = x as u32;
    let yv = y as u32;
    let xf: u32 = if 65 <= xv && xv <= 90 {
        xv + 32
    } else {
        xv
    };
    let yf: u32 = if 65 <= yv && yv <= 90 {
        yv + 32
    } else {
        yv
    };
    proof {
        vstd::utf8::char_is_scalar(x);
        vstd::utf8::char_is_scalar(y);
        vstd::utf8::char_u32_cast(x, x as u32);
        vstd::utf8::char_u32_cast(y, y as u32);
    }
    xf == yf
}

/// True when two strings are equal up to ASCII case.
pub(crate) fn str_eq_ci(a: &str, b: &str) -> (r: bool)
    ensures
        r == (spec_fold(a@) == spec_fold(b@)),
{
    let alen = a.unicode_len();
    let blen = b.unicode_len();
    if alen != blen {
        assert(spec_fold(a@).len() != spec_fold(b@).len());
        return false;
    }
    let mut i: usize = 0;
    while i < alen
        invariant
            alen == a@.len(),
            alen == b@.len(),
            i <= alen,
            forall|j: int| 0 <= j < i ==> spec_fold(a@)[j] == spec_fold(b@)[j],
        decreases alen - i,
    {
        let ca = a.get_char(i);
        let cb = b.get_char(i);
        if !chars_eq_ci(ca, cb) {
            assert(spec_fold(a@)[i as int] != spec_fold(b@)[i as int]);
            return false;
        }
        i = i + 1;
    }
    proof {
        assert(spec_fold(a@) =~= spec_fold(b@));
    }
    true
}

impl Clone for SeedType {
    /// Cloning keeps both carried names.
    fn clone(&self) -> (r: Self)
        ensures
            r == *self,
    {
        match self {
            SeedType::Sunflower(v, b) => SeedType::Sunflower(v.clone(), b.clone()),
            SeedType::Pea(v, b) => SeedType::Pea(v.clone(), b.clone()),
            SeedType::Carrot(v, b) => SeedType::Carrot(v.clone(), b.clone()),
            SeedType::Tomato(v, b) => SeedType::Tomato(v.clone(), b.clone()),
            SeedType::Broccoli(v, b) => SeedType::Broccoli(v.clone(), b.clone()),
        }
    }
}

impl SeedType {
    /// The index of this species in the fixed species list.
    pub fn kind_index(&self) -> (r: usize)
        ensures
            r == spec_kind_index(*self),
    {
        match self {
            SeedType::Sunflower(..) => 0,
            SeedType::Pea(..) => 1,
            SeedType::Carrot(..) => 2,
            SeedType::Tomato(..) => 3,
            SeedType::Broccoli(..) => 4,
        }
    }

    /// Resolves a free-text species name, ignoring ASCII case. The resolved
    /// seed type keeps the name as given and carries the fixed botanica name.
    pub fn from_str(seed_type: &str) -> (r: Result<SeedType, String>)
        ensures
            match r {
                Ok(seed) => spec_seed_kind(seed_type@) == Some(spec_kind_index(seed))
                    && spec_verbose_name(seed) == seed_type@
                    && spec_botanica_name(seed) == "Botanica"@,
                Err(m) => spec_seed_kind(seed_type@) is None && m@ == "Invalid seed type"@,
            },
    {
        if str_eq_ci(seed_type, "sun flower") {
            Ok(SeedType::Sunflower(String::from_str(seed_type), String::from_str("Botanica")))
        } else if str_eq_ci(seed_type, "pea") {
            Ok(SeedType::Pea(String::from_str(seed_type), String::from_str("Botanica")))
        } else if str_eq_ci(seed_type, "carrot") {
            Ok(SeedType::Carrot(String::from_str(seed_type), String::from_str("Botanica")))
        } else if str_eq_ci(seed_type, "tomato") {
            Ok(SeedType::Tomato(String::from_str(seed_type), String::from_str("Botanica")))
        } else if str_eq_ci(seed_type, "broccoli") {
            Ok(SeedType::Broccoli(String::from_str(seed_type), String::from_str("Botanica")))
        } else {
            Err(String::from_str("Invalid seed type"))
        }
    }

    /// The botanica catalogue name of this seed type.
    pub fn get_botanica_name(&self) -> (r: String)
        ensures
            r@ == spec_botanica_name(*self),
    {
        match self {
            SeedType::Sunflower(_, botanic_name) => botanic_name.clone(),
            SeedType::Pea(_, botanic_name) => botanic_name.clone(),
            SeedType::Carrot(_, botanic_name) => botanic_name.clone(),
            SeedType::Tomato(_, botanic_name) => botanic_name.clone(),
            SeedType::Broccoli(_, botanic_name) => botanic_name.clone(),
        }
    }

    /// The free-text name this seed type was resolved from.
    pub fn get_verbose_name(&self) -> (r: String)
        ensures
            r@ == spec_verbose_name(*self),
    {
        match self {
            SeedType::Sunflower(verbose_name, _) => verbose_name.clone(),
            SeedType::Pea(verbose_name, _) => verbose_name.clone(),
            SeedType::Carrot(verbose_name, _) => verbose_name.clone(),
            SeedType::Tomato(verbose_name, _) => verbose_name.clone(),
            SeedType::Broccoli(verbose_name, _) => verbose_name.clone(),
        }
    }
}

/// One catalogue record: a bag holding `quantity` plantable seeds of one
/// species.
#[derive(Debug)]
pub struct SeedBag {
    pub quantity: u32,
    pub seed_type: SeedType,
    pub species: String,
    pub is_gmo: Option<bool>,
    pub description: Option<String>,
}

/// The five catalogue columns (verbose name, quantity per bag, species,
/// gmo flag, description), resolved from the header row.
pub open spec fn spec_catalog_cols(headers: Seq<Seq<char>>) -> Option<(int, int, int, int, int)> {
    let v = spec_find_col(headers, "verbose_name"@);
    let q = spec_find_col(headers, "quantity_per_bag"@);
    let s = spec_find_col(headers, "species"@);
    let g = spec_find_col(headers, "is_gmo"@);
    let d = spec_find_col(headers, "description"@);
    if v is Some && q is Some && s is Some && g is Some && d is Some {
        Some((v->Some_0, q->Some_0, s->Some_0, g->Some_0, d->Some_0))
    } else {
        None
    }
}

/// Why one record row is rejected, or `Ok` when it loads; the checks run in
/// the order the loader reads the cells: presence of every cell, then the
/// quantity number, then the species name, then the gmo flag.
pub open spec fn spec_record_status(row: Seq<Seq<char>>, cols: (int, int, int, int, int)) -> Result<
    (),
    FarmError,
> {
    if !(0 <= cols.0 < row.len() && 0 <= cols.1 < row.len() && 0 <= cols.2 < row.len() && 0 <= cols.3
        < row.len() && 0 <= cols.4 < row.len()) {
        Err(FarmError::CatalogLoad)
    } else if spec_parse_u32(row[cols.1]) is None {
        Err(FarmError::CatalogLoad)
    } else if spec_seed_kind(row[cols.0]) is None {
        Err(FarmError::UnknownSpecies)
    } else if spec_parse_bool(row[cols.3]) is None {
        Err(FarmError::CatalogLoad)
    } else {
        Ok(())
    }
}

/// Status of a record list: the first rejected row decides.
pub open spec fn spec_records_status(
    records: Seq<Seq<Seq<char>>>,
    cols: (int, int, int, int, int),
) -> Result<(), FarmError>
    decreases records.len(),
{
    if records.len() == 0 {
        Ok(())
    } else {
        match spec_record_status(records[0], cols) {
            Err(e) => Err(e),
            Ok(u) => spec_records_status(records.drop_first(), cols),
        }
    }
}

/// Status of a whole catalogue table: a header row with all five columns
/// must be present, and then every record row must load.
pub open spec fn spec_loader_status(rows: Seq<Seq<Seq<char>>>) -> Result<(), FarmError> {
    if rows.len() == 0 {
        Err(FarmError::CatalogLoad)
    } else {
        match spec_catalog_cols(rows[0]) {
            None => Err(FarmError::CatalogLoad),
            Some(cols) => spec_records_status(rows.drop_first(), cols),
        }
    }
}

/// The bag a loading record row yields.
pub open spec fn spec_bag_matches_record(
    bag: SeedBag,
    row: Seq<Seq<char>>,
    cols: (int, int, int, int, int),
) -> bool {
    &&& bag.quantity == spec_parse_u32(row[cols.1])->Some_0
    &&& spec_kind_index(bag.seed_type) == spec_seed_kind(row[cols.0])->Some_0
    &&& spec_verbose_name(bag.seed_type) == row[cols.0]
    &&& spec_botanica_name(bag.seed_type) == "Botanica"@
    &&& bag.species@ == row[cols.2]
    &&& bag.is_gmo == Some(spec_parse_bool(row[cols.3])->Some_0)
    &&& (bag.description matches Some(d) && d@ == row[cols.4])
}


/// The bag list a loading catalogue table yields: one bag per record row.
pub open spec fn spec_bags_match_rows(bags: Seq<SeedBag>, rows: Seq<Seq<Seq<char>>>) -> bool {
    &&& spec_loader_status(rows) == Ok::<(), FarmError>(())
    &&& bags.len() == rows.len() - 1
    &&& (spec_catalog_cols(rows[0]) matches Some(cols) && forall|i: int|
        0 <= i < bags.len() ==> spec_bag_matches_record(bags[i], rows[i + 1], cols))
}

/// Appending one loading record keeps a record list loading; appending a
/// rejected one gives its error.
pub proof fn lemma_records_status_snoc(
    records: Seq<Seq<Seq<char>>>,
    n: int,
    cols: (int, int, int, int, int),
)
    requires
        0 <= n < records.len(),
        spec_records_status(records.take(n), cols) == Ok::<(), FarmError>(()),
    ensures
        spec_records_status(records.take(n + 1), cols) == (match spec_record_status(
            records[n],
            cols,
        ) {
            Ok(u) => Ok::<(), FarmError>(()),
            Err(e) => Err(e),
        }),
    decreases n,
{
    if n == 0 {
        assert(records.take(1)[0] == records[0]);
        assert(records.take(1).drop_first() =~= records.take(0));
    } else {
        let rest = records.drop_first();
        assert(records.take(n)[0] == records[0]);
        assert(records.take(n).drop_first() =~= rest.take(n - 1));
        lemma_records_status_snoc(rest, n - 1, cols);
        assert(rest[n - 1] == records[n]);
        assert(records.take(n + 1)[0] == records[0]);
        assert(records.take(n + 1).drop_first() =~= rest.take(n));
    }
}

/// When every record before `n` loads and record `n` is rejected, the whole
/// list is rejected with record `n`'s error.
pub proof fn lemma_records_status_first_err(
    records: Seq<Seq<Seq<char>>>,
    n: int,
    cols: (int, int, int, int, int),
    e: FarmError,
)
    requires
        0 <= n < records.len(),
        spec_records_status(records.take(n), cols) == Ok::<(), FarmError>(()),
        spec_record_status(records[n], cols) == Err::<(), FarmError>(e),
    ensures
        spec_records_status(records, cols) == Err::<(), FarmError>(e),
    decreases n,
{
    if n == 0 {
    } else {
        let rest = records.drop_first();
        assert(records.take(n)[0] == records[0]);
        assert(records.take(n).drop_first() =~= rest.take(n - 1));
        assert(rest[n - 1] == records[n]);
        lemma_records_status_first_err(rest, n - 1, cols, e);
    }
}

impl SeedBag {
    /// A bag for a resolvable species name; `None` exactly when the name
    /// resolves to no known species.
    pub fn new(quantity: u32, seed_type: &str, species: String) -> (r: Option<Self>)
        ensures
            match r {
                Some(bag) => spec_seed_kind(seed_type@) is Some && bag.quantity == quantity
                    && spec_kind_index(bag.seed_type) == spec_seed_kind(seed_type@)->Some_0
                    && spec_verbose_name(bag.seed_type) == seed_type@
                    && spec_botanica_name(bag.seed_type) == "Botanica"@
                    && bag.species == species
                    && bag.is_gmo is None
                    && bag.description is None,
                None => spec_seed_kind(seed_type@) is None,
            },
    {
        let seed = SeedType::from_str(seed_type);
        match seed {
            Ok(seed) => Some(
                Self {
                    quantity,
                    seed_type: seed,
                    species: species,
                    description: None,
                    is_gmo: None,
                },
            ),
            Err(_) => None,
        }
    }

    /// Loads every record of a csv catalogue into bags, and succeeds on
    /// exactly the catalogues that load: the bytes must decode, the header
    /// row must name the five columns, and each record row gives one bag.
    /// Undecodable bytes and the first malformed row reject the whole
    /// catalogue with a load error, a row naming an unknown species with a
    /// species error.
    pub fn tear_bags(data: &[u8]) -> (r: Result<Vec<SeedBag>, FarmError>)
        ensures
            match r {
                Ok(bags) => spec_csv_decodes(data@) && spec_bags_match_rows(
                    bags@,
                    spec_csv_rows(data@),
                ),
                Err(e) => (!spec_csv_decodes(data@) && e == FarmError::CatalogLoad)
                    || spec_loader_status(spec_csv_rows(data@)) == Err::<(), FarmError>(e),
            },
            (spec_csv_decodes(data@) && spec_loader_status(spec_csv_rows(data@)) == Ok::<
                (),
                FarmError,
            >(())) ==> r is Ok,
    {
        match extract_content(data) {
            None => Err(FarmError::CatalogLoad),
            Some(rows) => Self::bags_from_rows(&rows),
        }
    }

    /// The loader on already decoded rows, the header row first: succeeds if
    /// and only if the table loads, and then yields one bag per record row.
    pub fn bags_from_rows(rows: &Vec<Vec<String>>) -> (r: Result<Vec<SeedBag>, FarmError>)
        ensures
            match r {
                Ok(bags) => spec_bags_match_rows(bags@, rows.deep_view()),
                Err(e) => spec_loader_status(rows.deep_view()) == Err::<(), FarmError>(e),
            },
    {
        let ghost rv = rows.deep_view();
        if rows.len() == 0 {
            return Err(FarmError::CatalogLoad);
        }
        let headers = &rows[0];
        proof {
            assert(headers.deep_view() == rv[0]);
        }
        let vcol_opt = find_column(headers, "verbose_name");
        let qcol_opt = find_column(headers, "quantity_per_bag");
        let scol_opt = find_column(headers, "species");
        let gcol_opt = find_column(headers, "is_gmo");
        let dcol_opt = find_column(headers, "description");
        let (vcol, qcol, scol, gcol, dcol) = match (vcol_opt, qcol_opt, scol_opt, gcol_opt, dcol_opt) {
            (Some(v), Some(q), Some(s), Some(g), Some(d)) => (v, q, s, g, d),
            _ => {
                return Err(FarmError::CatalogLoad);
            },
        };
        let ghost cols = spec_catalog_cols(rv[0])->Some_0;
        let ghost records = rv.subrange(1, rv.len() as int);
        proof {
            assert(records =~= rv.drop_first());
            assert(cols == (vcol as int, qcol as int, scol as int, gcol as int, dcol as int));
        }
        let n = rows.len();
        let mut bags: Vec<SeedBag> = Vec::new();
        let mut i: usize = 1;
        while i < n
            invariant
                1 <= i <= n,
                n == rows@.len(),
                rv == rows.deep_view(),
                rv.len() == n,
                records == rv.subrange(1, rv.len() as int),
                spec_catalog_cols(rv[0]) == Some(cols),
                cols == (vcol as int, qcol as int, scol as int, gcol as int, dcol as int),
                spec_records_status(records.take(i - 1), cols) == Ok::<(), FarmError>(()),
                bags@.len() == i - 1,
                forall|j: int|
                    0 <= j < bags@.len() ==> spec_bag_matches_record(bags@[j], rv[j + 1], cols),
            decreases n - i,
        {
            let row = &rows[i];
            proof {
                assert(row.deep_view() == rv[i as int]);
                assert(records[i - 1] == rv[i as int]);
            }
            let width = row.len();
            if !(vcol < width && qcol < width && scol < width && gcol < width && dcol < width) {
                proof {
                    lemma_records_status_first_err(records, i - 1, cols, FarmError::CatalogLoad);
                }
                return Err(FarmError::CatalogLoad);
            }
            proof {
                assert(row.deep_view()[qcol as int] == row@[qcol as int]@);
                assert(row.deep_view()[vcol as int] == row@[vcol as int]@);
                assert(row.deep_view()[scol as int] == row@[scol as int]@);
                assert(row.deep_view()[gcol as int] == row@[gcol as int]@);
                assert(row.deep_view()[dcol as int] == row@[dcol as int]@);
            }
            let quantity = match parse_u32_str(row[qcol].as_str()) {
                Some(q) => q,
                None => {
                    proof {
                        lemma_records_status_first_err(records, i - 1, cols, FarmError::CatalogLoad);
                    }
                    return Err(FarmError::CatalogLoad);
                },
            };
            let mut bag = match SeedBag::new(quantity, row[vcol].as_str(), row[scol].clone()) {
                Some(b) => b,
                None => {
                    proof {
                        lemma_records_status_first_err(records, i - 1, cols, FarmError::UnknownSpecies);
                    }
                    return Err(FarmError::UnknownSpecies);
                },
            };
            let gmo = match parse_bool_str(row[gcol].as_str()) {
                Some(g) => g,
                None => {
                    proof {
                        lemma_records_status_first_err(records, i - 1, cols, FarmError::CatalogLoad);
                    }
                    return Err(FarmError::CatalogLoad);
                },
            };
            bag.is_gmo = Some(gmo);
            bag.description = Some(row[dcol].clone());
            bags.push(bag);
            proof {
                lemma_records_status_snoc(records, i - 1, cols);
            }
            i = i + 1;
        }
        proof {
            assert(records.take(i - 1) =~= records);
            assert(rv.drop_first() =~= records);
        }
        Ok(bags)
    }
}

} // verus!
