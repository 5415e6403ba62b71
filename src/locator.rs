use vstd::prelude::*;

verus! {

/// `<image_root>/<domain>.<ext>`
pub open spec fn conventional_path_of(image_root: Seq<char>, domain: Seq<char>, ext: Seq<char>) -> Seq<char> {
    image_root + seq!['/'] + domain + seq!['.'] + ext
}

/// The path of a domain's disk image, found from what was observed on disk.
pub open spec fn located(conventional: Seq<char>, conventional_exists: bool, source: Option<Seq<char>>, source_exists: bool) -> Option<Seq<char>> {
    if conventional_exists {
        Some(conventional)
    } else if source is Some && source_exists {
        source
    } else {
        None
    }
}

/// Resolves where a domain's primary disk image lives.
pub struct DiskLocator;

impl DiskLocator {
    /// Where a domain's image lives by convention.
    pub fn conventional_path(image_root: &str, domain: &str, ext: &str) -> (r: String)
        ensures
            r@ == conventional_path_of(image_root@, domain@, ext@),
    {
        proof {
            reveal_strlit("/");
            reveal_strlit(".");
        }
        let mut s = String::from_str(image_root);
        s.append("/");
        s.append(domain);
        s.append(".");
        s.append(ext);
        s
    }

    /// The conventional path where a file exists there; otherwise the disk
    /// source named by the domain's configuration where that file exists;
    /// otherwise `None`.
    pub fn locate(conventional: &String, conventional_exists: bool, source: &Option<String>, source_exists: bool) -> (r: Option<String>)
        ensures
            r.deep_view() == located(conventional@, conventional_exists, source.deep_view(), source_exists),
    {
        if conventional_exists {
            Some(conventional.clone())
        } else {
            match source {
                Some(s) => if source_exists { Some(s.clone()) } else { None },
                None => None,
            }
        }
    }
}

/// Locating is a function of what was observed: with no change on disk in
/// between, locating twice gives the same path.
pub proof fn lemma_locate_idempotent(
    conventional: Seq<char>,
    conventional_exists: bool,
    source: Option<Seq<char>>,
    source_exists: bool,
    conventional2: Seq<char>,
    conventional_exists2: bool,
    source2: Option<Seq<char>>,
    source_exists2: bool,
)
    requires
        conventional == conventional2,
        conventional_exists == conventional_exists2,
        source == source2,
        source_exists == source_exists2,
    ensures
        located(conventional, conventional_exists, source, source_exists) == located(conventional2, conventional_exists2, source2, source_exists2),
{
}

} // verus!
