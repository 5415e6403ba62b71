use vstd::prelude::*;
use vstd::seq_lib::{to_multiset_build, to_multiset_insert};
use crate::calendar::{CivilDate, digit_char, digit_value, digits, is_digit, stamp_of, valid_date};
use crate::text::text_eq;

verus! {

/// A backup made of one domain on one day: its image and its configuration.
pub struct ArtifactPair {
    pub domain: String,
    pub date: CivilDate,
    pub image_path: String,
    pub config_path: String,
}

impl ArtifactPair {
    pub open spec fn wf(&self) -> bool {
        &&& self.date.wf()
        &&& self.domain@.len() > 0
        &&& self.image_path@.len() > 0
        &&& self.config_path@.len() > 0
    }

    /// An identical pair.
    pub fn duplicate(&self) -> (r: ArtifactPair)
        ensures
            r == *self,
    {
        ArtifactPair {
            domain: self.domain.clone(),
            date: self.date,
            image_path: self.image_path.clone(),
            config_path: self.config_path.clone(),
        }
    }
}

/// `<domain>-<YYYYMMDD>.<ext>`
pub open spec fn artifact_file_name_of(domain: Seq<char>, y: int, m: int, d: int, ext: Seq<char>) -> Seq<char> {
    domain + seq!['-'] + stamp_of(y, m, d) + seq!['.'] + ext
}

/// The name of the file that holds a domain's artifact of a day.
pub fn artifact_file_name(domain: &str, date: &CivilDate, ext: &str) -> (r: String)
    ensures
        r@ == artifact_file_name_of(domain@, date.year as int, date.month as int, date.day as int, ext@),
{
    proof {
        reveal_strlit("-");
        reveal_strlit(".");
    }
    let mut s = String::from_str(domain);
    s.append("-");
    let stamp = date.stamp();
    s.append(stamp.as_str());
    s.append(".");
    s.append(ext);
    s
}

/// The decimal value of a string of digits.
pub open spec fn decimal(s: Seq<char>) -> int
    decreases s.len(),
{
    if s.len() == 0 {
        0
    } else {
        decimal(s.drop_last()) * 10 + digit_value(s.last())
    }
}

pub open spec fn pow10(n: nat) -> int
    decreases n,
{
    if n == 0 { 1 } else { 10 * pow10((n - 1) as nat) }
}

/// Where the eight characters of the stamp start in an artifact file name.
pub open spec fn stamp_start(f: Seq<char>, ext: Seq<char>) -> int {
    f.len() - ext.len() - 9
}

pub open spec fn stamp_field(f: Seq<char>, ext: Seq<char>, offset: int, len: int) -> int {
    decimal(f.subrange(stamp_start(f, ext) + offset, stamp_start(f, ext) + offset + len))
}

/// `f` reads `<domain>-<YYYYMMDD>.<ext>` with a non-empty domain and an
/// existing day of the years 1 to 9999.
pub open spec fn is_artifact_file_name(f: Seq<char>, ext: Seq<char>) -> bool {
    let n = f.len();
    let k = ext.len();
    &&& n >= k + 11
    &&& f.subrange(n - k, n as int) == ext
    &&& f[n - k - 1] == '.'
    &&& f[n - k - 10] == '-'
    &&& forall|i: int| stamp_start(f, ext) <= i < n - k - 1 ==> is_digit(#[trigger] f[i])
    &&& 1 <= stamp_field(f, ext, 0, 4)
    &&& valid_date(stamp_field(f, ext, 0, 4), stamp_field(f, ext, 4, 2), stamp_field(f, ext, 6, 2))
}

/// The decimal value of `len` digits of `s` from `from`, or `None` where one
/// of them is not a digit.
fn read_decimal(s: &str, from: usize, len: usize) -> (r: Option<u32>)
    requires
        from + len <= s@.len() <= usize::MAX,
        len <= 4,
    ensures
        r matches Some(v) ==> v < pow10(len as nat),
        r is Some <==> (forall|i: int| from <= i < from + len ==> is_digit(#[trigger] s@[i])),
        r matches Some(v) ==> v == decimal(s@.subrange(from as int, from + len)),
{
    let mut acc: u32 = 0;
    let mut i: usize = 0;
    while i < len
        invariant
            from + len <= s@.len() <= usize::MAX,
            len <= 4,
            i <= len,
            forall|j: int| from <= j < from + i ==> is_digit(#[trigger] s@[j]),
            acc == decimal(s@.subrange(from as int, from + i)),
            acc < pow10(i as nat),
        decreases len - i,
    {
        let c = s.get_char(from + i);
        if c < '0' || c > '9' {
            return None;
        }
        assert(s@.subrange(from as int, from + i + 1).drop_last() =~= s@.subrange(from as int, from + i));
        proof {
            reveal_with_fuel(pow10, 5);
        }
        acc = acc * 10 + (c as u32 - '0' as u32);
        i = i + 1;
    }
    Some(acc)
}

/// Splits an artifact file name into its domain and its day, or gives `None`
/// where the name does not read `<domain>-<YYYYMMDD>.<ext>` with a non-empty
/// domain and an existing day.
pub fn parse_artifact_file_name(f: &str, ext: &str) -> (r: Option<(String, CivilDate)>)
    ensures
        r is Some <==> is_artifact_file_name(f@, ext@),
        r matches Some((domain, date)) ==> {
            &&& date.wf()
            &&& domain@ == f@.subrange(0, f@.len() - ext@.len() - 10)
            &&& date.year == stamp_field(f@, ext@, 0, 4)
            &&& date.month == stamp_field(f@, ext@, 4, 2)
            &&& date.day == stamp_field(f@, ext@, 6, 2)
        },
{
    let n = f.unicode_len();
    let k = ext.unicode_len();
    if n < 11 || n - 11 < k {
        return None;
    }
    if !text_eq(f.substring_char(n - k, n), ext) {
        return None;
    }
    if f.get_char(n - k - 1) != '.' || f.get_char(n - k - 10) != '-' {
        return None;
    }
    let start = n - k - 9;
    let y = read_decimal(f, start, 4);
    let m = read_decimal(f, start + 4, 2);
    let d = read_decimal(f, start + 6, 2);
    match (y, m, d) {
        (Some(y), Some(m), Some(d)) => {
            proof {
                assert forall|i: int| stamp_start(f@, ext@) <= i < n - k - 1 implies is_digit(#[trigger] f@[i]) by {
                    if i < start + 4 {} else if i < start + 6 {} else {}
                }
            }
            proof {
                reveal_with_fuel(pow10, 5);
            }
            if y < 1 {
                return None;
            }
            match CivilDate::from_ymd(y, m, d) {
                Some(date) => {
                    let domain = String::from_str(f.substring_char(0, n - k - 10));
                    Some((domain, date))
                },
                None => None,
            }
        },
        _ => None,
    }
}

} // verus!

verus! {

/// The pairs of `pairs` that belong to `domain`, in their order.
pub open spec fn pairs_of(pairs: Seq<ArtifactPair>, domain: Seq<char>) -> Seq<ArtifactPair> {
    pairs.filter(|p: ArtifactPair| p.domain@ == domain)
}

/// The pairs that belong to `domain`, in the order given.
pub fn list_for_domain(pairs: &Vec<ArtifactPair>, domain: &str) -> (r: Vec<ArtifactPair>)
    ensures
        r@ == pairs_of(pairs@, domain@),
{
    let mut r: Vec<ArtifactPair> = Vec::new();
    let mut i: usize = 0;
    while i < pairs.len()
        invariant
            i <= pairs.len(),
            r@ == pairs_of(pairs@.take(i as int), domain@),
        decreases pairs.len() - i,
    {
        proof {
            reveal(Seq::filter);
            assert(pairs@.take(i + 1).drop_last() =~= pairs@.take(i as int));
        }
        if text_eq(pairs[i].domain.as_str(), domain) {
            r.push(pairs[i].duplicate());
        }
        i = i + 1;
    }
    assert(pairs@.take(pairs.len() as int) =~= pairs@);
    r
}

/// The pair of `domain` on the day with number `ordinal`, if the catalog holds one.
pub fn find(pairs: &Vec<ArtifactPair>, domain: &str, ordinal: i32) -> (r: Option<ArtifactPair>)
    ensures
        r is None <==> !(exists|i: int| 0 <= i < pairs@.len() && #[trigger] pairs@[i].domain@ == domain@
            && pairs@[i].date.ordinal == ordinal),
        r matches Some(p) ==> pairs@.contains(p) && p.domain@ == domain@ && p.date.ordinal == ordinal,
{
    let mut i: usize = 0;
    while i < pairs.len()
        invariant
            i <= pairs.len(),
            forall|j: int| 0 <= j < i ==> !(#[trigger] pairs@[j].domain@ == domain@ && pairs@[j].date.ordinal == ordinal),
        decreases pairs.len() - i,
    {
        if pairs[i].date.ordinal == ordinal && text_eq(pairs[i].domain.as_str(), domain) {
            let p = pairs[i].duplicate();
            assert(pairs@[i as int] == p);
            return Some(p);
        }
        i = i + 1;
    }
    None
}

/// The most recent pair of `domain`, if the catalog holds any.
pub fn latest(pairs: &Vec<ArtifactPair>, domain: &str) -> (r: Option<ArtifactPair>)
    ensures
        r is None <==> !(exists|i: int| 0 <= i < pairs@.len() && #[trigger] pairs@[i].domain@ == domain@),
        r matches Some(p) ==> {
            &&& pairs@.contains(p)
            &&& p.domain@ == domain@
            &&& forall|i: int| 0 <= i < pairs@.len() && #[trigger] pairs@[i].domain@ == domain@
                ==> pairs@[i].date.ordinal <= p.date.ordinal
        },
{
    let mut best: Option<usize> = None;
    let mut i: usize = 0;
    while i < pairs.len()
        invariant
            i <= pairs.len(),
            match best {
                None => forall|j: int| 0 <= j < i ==> !(#[trigger] pairs@[j].domain@ == domain@),
                Some(b) => b < i && pairs@[b as int].domain@ == domain@
                    && forall|j: int| 0 <= j < i && #[trigger] pairs@[j].domain@ == domain@
                        ==> pairs@[j].date.ordinal <= pairs@[b as int].date.ordinal,
            },
        decreases pairs.len() - i,
    {
        if text_eq(pairs[i].domain.as_str(), domain) {
            match best {
                None => {
                    best = Some(i);
                },
                Some(b) => {
                    if pairs[i].date.ordinal > pairs[b].date.ordinal {
                        best = Some(i);
                    }
                },
            }
        }
        i = i + 1;
    }
    match best {
        Some(b) => {
            let p = pairs[b].duplicate();
            assert(pairs@[b as int] == p);
            Some(p)
        },
        None => None,
    }
}

/// Ordered by day, oldest first.
pub open spec fn by_date(s: Seq<ArtifactPair>) -> bool {
    forall|i: int, j: int| 0 <= i < j < s.len() ==> (#[trigger] s[i]).date.ordinal <= (#[trigger] s[j]).date.ordinal
}

/// The pairs of `domain`, oldest first; pairs of one day keep their order.
pub fn list(pairs: &Vec<ArtifactPair>, domain: &str) -> (r: Vec<ArtifactPair>)
    ensures
        r@.to_multiset() == pairs_of(pairs@, domain@).to_multiset(),
        by_date(r@),
{
    let mine = list_for_domain(pairs, domain);
    let mut r: Vec<ArtifactPair> = Vec::new();
    assert(mine@.take(0) =~= r@);
    let mut i: usize = 0;
    while i < mine.len()
        invariant
            i <= mine.len(),
            r@.to_multiset() == mine@.take(i as int).to_multiset(),
            by_date(r@),
        decreases mine.len() - i,
    {
        let x = mine[i].duplicate();
        let mut pos: usize = 0;
        while pos < r.len() && r[pos].date.ordinal <= x.date.ordinal
            invariant
                pos <= r.len(),
                forall|k: int| 0 <= k < pos ==> (#[trigger] r@[k]).date.ordinal <= x.date.ordinal,
            decreases r.len() - pos,
        {
            pos = pos + 1;
        }
        let ghost before = r@;
        proof {
            to_multiset_insert(before, pos as int, x);
            assert(mine@.take(i + 1) =~= mine@.take(i as int).push(mine@[i as int]));
            to_multiset_build(mine@.take(i as int), mine@[i as int]);
            if pos < before.len() {
                assert forall|k: int| pos <= k < before.len() implies x.date.ordinal < (#[trigger] before[k]).date.ordinal by {
                    assert(before[pos as int].date.ordinal <= before[k].date.ordinal || k == pos);
                }
            }
        }
        r.insert(pos, x);
        proof {
            assert forall|a: int, b: int| 0 <= a < b < r@.len() implies (#[trigger] r@[a]).date.ordinal <= (#[trigger] r@[b]).date.ordinal by {
                let ia = if a < pos { a } else if a == pos { -1 } else { a - 1 };
                let ib = if b < pos { b } else if b == pos { -1 } else { b - 1 };
                if a != pos && b != pos {
                    assert(r@[a] == before[ia] && r@[b] == before[ib]);
                } else if a == pos {
                    assert(r@[b] == before[ib]);
                } else {
                    assert(r@[a] == before[ia]);
                }
            }
        }
        i = i + 1;
    }
    assert(mine@.take(mine.len() as int) =~= mine@);
    r
}

proof fn lemma_digits(n: int, w: nat)
    requires
        0 <= n < pow10(w),
    ensures
        digits(n, w).len() == w,
        decimal(digits(n, w)) == n,
        forall|i: int| 0 <= i < w ==> is_digit(#[trigger] digits(n, w)[i]),
    decreases w,
{
    if w > 0 {
        let p = pow10((w - 1) as nat);
        assert(n / 10 < p) by (nonlinear_arith)
            requires n < 10 * p, 0 <= n;
        lemma_digits(n / 10, (w - 1) as nat);
        let ds = digits(n, w);
        assert(ds.drop_last() == digits(n / 10, (w - 1) as nat));
        let d = n % 10;
        assert(digit_value(digit_char(d)) == d && is_digit(digit_char(d)));
        assert(n == (n / 10) * 10 + d);
    }
}

/// Building an artifact file name and reading it back gives the domain and
/// the day it was built from, so the catalog can be recovered from the file
/// names alone.
pub proof fn lemma_artifact_name_round_trip(domain: Seq<char>, date: CivilDate, ext: Seq<char>)
    requires
        domain.len() > 0,
        date.wf(),
    ensures
        is_artifact_file_name(artifact_file_name_of(domain, date.year as int, date.month as int, date.day as int, ext), ext),
        ({
            let f = artifact_file_name_of(domain, date.year as int, date.month as int, date.day as int, ext);
            &&& f.subrange(0, f.len() - ext.len() - 10) == domain
            &&& stamp_field(f, ext, 0, 4) == date.year
            &&& stamp_field(f, ext, 4, 2) == date.month
            &&& stamp_field(f, ext, 6, 2) == date.day
        }),
{
    let (y, m, d) = (date.year as int, date.month as int, date.day as int);
    reveal_with_fuel(pow10, 5);
    lemma_digits(y, 4);
    lemma_digits(m, 2);
    lemma_digits(d, 2);
    let st = stamp_of(y, m, d);
    assert(st.len() == 8);
    let f = artifact_file_name_of(domain, y, m, d, ext);
    assert(f =~= domain + seq!['-'] + st + seq!['.'] + ext);
    let n = f.len() as int;
    let k = ext.len() as int;
    let l = domain.len() as int;
    assert(seq!['-'].len() == 1 && seq!['.'].len() == 1);
    assert(n == l + 10 + k);
    assert(f.subrange(n - k, n) =~= ext);
    assert(f.subrange(0, l) =~= domain);
    assert(f[l] == '-' && f[l + 9] == '.');
    assert(f.subrange(l + 1, l + 5) =~= digits(y, 4));
    assert(f.subrange(l + 5, l + 7) =~= digits(m, 2));
    assert(f.subrange(l + 7, l + 9) =~= digits(d, 2));
    assert forall|i: int| stamp_start(f, ext) <= i < n - k - 1 implies is_digit(#[trigger] f[i]) by {
        if i < l + 5 {
            assert(f[i] == digits(y, 4)[i - l - 1]);
        } else if i < l + 7 {
            assert(f[i] == digits(m, 2)[i - l - 5]);
        } else {
            assert(f[i] == digits(d, 2)[i - l - 7]);
        }
    }
}

/// `<dir>/<name>`
pub open spec fn in_dir(dir: Seq<char>, name: Seq<char>) -> Seq<char> {
    dir + seq!['/'] + name
}

pub fn join(dir: &str, name: &str) -> (r: String)
    ensures
        r@ == in_dir(dir@, name@),
{
    proof {
        reveal_strlit("/");
    }
    let mut s = String::from_str(dir);
    s.append("/");
    s.append(name);
    s
}

/// Whether `names` holds `name`.
fn holds_name(names: &Vec<String>, name: &str) -> (r: bool)
    ensures
        r == names@.map_values(|s: String| s@).contains(name@),
{
    let ghost m = names@.map_values(|s: String| s@);
    let mut i: usize = 0;
    while i < names.len()
        invariant
            i <= names.len(),
            m == names@.map_values(|s: String| s@),
            forall|j: int| 0 <= j < i ==> m[j] != name@,
        decreases names.len() - i,
    {
        if text_eq(names[i].as_str(), name) {
            assert(m[i as int] == name@);
            return true;
        }
        i = i + 1;
    }
    false
}

/// The name of the configuration file that pairs with the image file `f`.
pub open spec fn config_name_of(f: Seq<char>, ext: Seq<char>) -> Seq<char> {
    artifact_file_name_of(
        f.subrange(0, f.len() - ext.len() - 10),
        stamp_field(f, ext, 0, 4),
        stamp_field(f, ext, 4, 2),
        stamp_field(f, ext, 6, 2),
        "xml"@,
    )
}

/// The catalog entry that an image file found in `image_dir` makes: none
/// where its name is not an artifact name (the entry is skipped), or where
/// `config_files`, the names found in `config_dir`, lack its configuration.
pub fn catalog_entry(image_dir: &str, config_dir: &str, file: &str, image_ext: &str, config_files: &Vec<String>) -> (r: Option<ArtifactPair>)
    ensures
        r is Some <==> is_artifact_file_name(file@, image_ext@)
            && config_files@.map_values(|s: String| s@).contains(config_name_of(file@, image_ext@)),
        r matches Some(p) ==> {
            &&& p.date.wf()
            &&& p.domain@ == file@.subrange(0, file@.len() - image_ext@.len() - 10)
            &&& p.date.year == stamp_field(file@, image_ext@, 0, 4)
            &&& p.date.month == stamp_field(file@, image_ext@, 4, 2)
            &&& p.date.day == stamp_field(file@, image_ext@, 6, 2)
            &&& p.image_path@ == in_dir(image_dir@, file@)
            &&& p.config_path@ == in_dir(config_dir@, config_name_of(file@, image_ext@))
        },
{
    match parse_artifact_file_name(file, image_ext) {
        Some((domain, date)) => {
            let config_name = artifact_file_name(domain.as_str(), &date, "xml");
            if holds_name(config_files, config_name.as_str()) {
                Some(ArtifactPair {
                    domain,
                    date,
                    image_path: join(image_dir, file),
                    config_path: join(config_dir, config_name.as_str()),
                })
            } else {
                None
            }
        },
        None => None,
    }
}

} // verus!
