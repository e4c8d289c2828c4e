use vstd::prelude::*;

verus! {

/// The last component of a path, as `std::path::Path::file_name` gives it.
pub uninterp spec fn file_name_of(path: Seq<char>) -> Option<Seq<char>>;

/// Relies on `std::path::Path::file_name`: the final component of the path,
/// or none where the path is empty, a root, or ends in `..`.
#[verifier::external_body]
fn path_file_name(path: &str) -> (r: Option<String>)
    ensures
        match r {
            Some(name) => file_name_of(path@) == Some(name@),
            None => file_name_of(path@) is None,
        },
{
    std::path::Path::new(path).file_name().and_then(|n| n.to_str()).map(|n| n.to_string())
}

/// A file in a repository of the remote model hub.
#[derive(Debug, PartialEq, Eq)]
pub struct HFLocator {
    pub repo: String,
    pub file: String,
}

/// A file on the local disk.
#[derive(Debug, PartialEq, Eq)]
pub struct DiskLocator {
    pub path: String,
}

/// Where an importable artifact comes from, as callers submit it.
#[derive(Debug, PartialEq, Eq)]
pub enum Locator {
    HF(HFLocator),
    DISK(DiskLocator),
}

/// The source recorded with a registered model version.
#[derive(Debug, PartialEq, Eq)]
pub enum ImportSource {
    HF(HFLocator),
    DISK(DiskLocator),
}

/// The descriptor of one import, fixed at submission.
#[allow(inconsistent_fields)]
#[derive(Debug, PartialEq, Eq)]
pub enum ImportJob {
    HF { locator: HFLocator },
    DISK { locator: DiskLocator },
}

/// Why a submission was refused before any job was created.
#[derive(Debug, PartialEq, Eq)]
pub enum SubmissionError {
    /// The locator's path has no final file component to name the model by.
    NoFileName,
    /// The identifier is already taken by another job.
    DuplicateId,
}

impl Clone for HFLocator {
    fn clone(&self) -> (r: Self)
        ensures
            r == *self,
    {
        HFLocator { repo: self.repo.clone(), file: self.file.clone() }
    }
}

impl Clone for DiskLocator {
    fn clone(&self) -> (r: Self)
        ensures
            r == *self,
    {
        DiskLocator { path: self.path.clone() }
    }
}

impl Clone for Locator {
    fn clone(&self) -> (r: Self)
        ensures
            r == *self,
    {
        match self {
            Locator::HF(l) => Locator::HF(l.clone()),
            Locator::DISK(l) => Locator::DISK(l.clone()),
        }
    }
}

impl Clone for ImportSource {
    fn clone(&self) -> (r: Self)
        ensures
            r == *self,
    {
        match self {
            ImportSource::HF(l) => ImportSource::HF(l.clone()),
            ImportSource::DISK(l) => ImportSource::DISK(l.clone()),
        }
    }
}

impl Clone for ImportJob {
    fn clone(&self) -> (r: Self)
        ensures
            r == *self,
    {
        match self {
            ImportJob::HF { locator } => ImportJob::HF { locator: locator.clone() },
            ImportJob::DISK { locator } => ImportJob::DISK { locator: locator.clone() },
        }
    }
}

impl ImportJob {
    pub open spec fn spec_from_locator(locator: Locator) -> ImportJob {
        match locator {
            Locator::HF(l) => ImportJob::HF { locator: l },
            Locator::DISK(l) => ImportJob::DISK { locator: l },
        }
    }

    /// The path whose last component names the imported model.
    pub open spec fn artifact_path(self) -> Seq<char> {
        match self {
            ImportJob::HF { locator } => locator.file@,
            ImportJob::DISK { locator } => locator.path@,
        }
    }

    /// A job can be registered once fetched only if its artifact path has a file name.
    pub open spec fn is_valid(self) -> bool {
        file_name_of(self.artifact_path()) is Some
    }

    pub open spec fn spec_source(self) -> ImportSource {
        match self {
            ImportJob::HF { locator } => ImportSource::HF(locator),
            ImportJob::DISK { locator } => ImportSource::DISK(locator),
        }
    }

    pub fn from_locator(locator: Locator) -> (r: ImportJob)
        ensures
            r == Self::spec_from_locator(locator),
    {
        match locator {
            Locator::HF(l) => ImportJob::HF { locator: l },
            Locator::DISK(l) => ImportJob::DISK { locator: l },
        }
    }

    /// The model name under which a completed job is registered: the file name
    /// of its artifact path.
    pub fn model_name(&self) -> (r: Result<String, SubmissionError>)
        ensures
            match r {
                Ok(name) => file_name_of(self.artifact_path()) == Some(name@),
                Err(e) => e == SubmissionError::NoFileName && !self.is_valid(),
            },
    {
        let found = match self {
            ImportJob::HF { locator } => path_file_name(locator.file.as_str()),
            ImportJob::DISK { locator } => path_file_name(locator.path.as_str()),
        };
        match found {
            Some(name) => Ok(name),
            None => Err(SubmissionError::NoFileName),
        }
    }

    pub fn source(&self) -> (r: ImportSource)
        ensures
            r == self.spec_source(),
    {
        match self {
            ImportJob::HF { locator } => ImportSource::HF(locator.clone()),
            ImportJob::DISK { locator } => ImportSource::DISK(locator.clone()),
        }
    }
}

} // verus!
