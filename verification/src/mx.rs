//! The MX records of a domain, held as the host names they point to.

use vstd::prelude::*;

verus! {

/// Why an MX lookup failed.
#[derive(Debug, Clone, PartialEq, Eq)]
pub enum ResolveFailure {
    /// The domain has no MX record; with the resolver's message.
    NoRecordsFound(String),
    /// Any other failure of the resolver; with its message.
    Other(String),
}

/// Details about the MX lookup of a domain: the exchange host of each record,
/// in the order the resolver gave them, or why the lookup failed.
#[derive(Debug)]
pub struct MxDetails {
    /// MX lookup of this DNS.
    pub lookup: Result<Vec<String>, ResolveFailure>,
}

impl Default for MxDetails {
    /// The lookup was skipped.
    fn default() -> (r: Self)
        ensures
            r.lookup matches Err(ResolveFailure::Other(m)) && m@ == "Skipped"@,
    {
        MxDetails { lookup: Err(ResolveFailure::Other(String::from_str("Skipped"))) }
    }
}

/// The host names of a list of records.
pub open spec fn names_of(records: Seq<String>) -> Seq<Seq<char>> {
    records.map_values(|r: String| r@)
}

impl MxDetails {
    /// The details of a successful lookup.
    pub fn from_records(records: Vec<String>) -> (r: Self)
        ensures
            r.lookup == Ok::<Vec<String>, ResolveFailure>(records),
    {
        MxDetails { lookup: Ok(records) }
    }

    /// The records as they are reported: the host names, none when the
    /// lookup failed.
    pub open spec fn records_spec(&self) -> Seq<Seq<char>> {
        match self.lookup {
            Ok(v) => names_of(v@),
            Err(_) => Seq::empty(),
        }
    }

    /// The records as they are reported.
    pub fn records(&self) -> (r: Vec<String>)
        ensures
            names_of(r@) == self.records_spec(),
    {
        match &self.lookup {
            Ok(v) => {
                let mut out: Vec<String> = Vec::new();
                let mut i: usize = 0;
                while i < v.len()
                    invariant
                        i <= v@.len(),
                        out@ == v@.subrange(0, i as int),
                    decreases v@.len() - i,
                {
                    out.push(v[i].clone());
                    assert(out@ =~= v@.subrange(0, i + 1));
                    i += 1;
                }
                assert(v@.subrange(0, v@.len() as int) =~= v@);
                out
            },
            Err(_) => {
                let out: Vec<String> = Vec::new();
                assert(names_of(out@) =~= Seq::<Seq<char>>::empty());
                out
            },
        }
    }

    /// Does the domain accept mail: is there at least one record?
    pub fn accepts_mail(&self) -> (r: bool)
        ensures
            r == (self.records_spec().len() > 0),
    {
        match &self.lookup {
            Ok(v) => v.len() > 0,
            Err(_) => false,
        }
    }
}

/// Errors of the MX check.
#[derive(Debug, Clone, PartialEq, Eq)]
pub enum MxError {
    /// Error with IO (reading the system's resolver configuration), with its
    /// message.
    IoError(String),
    /// Error while resolving MX lookups, with its message.
    ResolveError(String),
}

/// Read the outcome of the MX lookup: records give details; a domain
/// without MX records gives details with the failed lookup (the check then
/// stops there); any other failure is an error.
pub fn check_mx_outcome(lookup: Result<Vec<String>, ResolveFailure>) -> (r: Result<MxDetails, MxError>)
    ensures
        match lookup {
            Ok(v) => r == Ok::<MxDetails, MxError>(MxDetails { lookup: Ok(v) }),
            Err(ResolveFailure::NoRecordsFound(m)) => r == Ok::<MxDetails, MxError>(
                MxDetails { lookup: Err(ResolveFailure::NoRecordsFound(m)) },
            ),
            Err(ResolveFailure::Other(m)) => r == Err::<MxDetails, MxError>(MxError::ResolveError(m)),
        },
{
    match lookup {
        Ok(v) => Ok(MxDetails::from_records(v)),
        Err(ResolveFailure::NoRecordsFound(m)) => Ok(
            MxDetails { lookup: Err(ResolveFailure::NoRecordsFound(m)) },
        ),
        Err(ResolveFailure::Other(m)) => Err(MxError::ResolveError(m)),
    }
}

} // verus!
