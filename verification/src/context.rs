//! What is needed to open a context of the native library.
use vstd::prelude::*;

verus! {

/// Collects the two names that open a context: the name of the sensor entity
/// and the directory that holds the calibration files.
#[derive(Clone, Debug)]
pub struct ContextBuilder {
    sns_ent_name: Option<String>,
    iq_file_dir: Option<String>,
}

/// A `ContextBuilder` as a mathematical value: each name, where it was given.
pub ghost struct ContextBuilderView {
    pub sns_ent_name: Option<Seq<char>>,
    pub iq_file_dir: Option<Seq<char>>,
}

impl View for ContextBuilder {
    type V = ContextBuilderView;

    closed spec fn view(&self) -> ContextBuilderView {
        ContextBuilderView {
            sns_ent_name: match self.sns_ent_name {
                Some(name) => Some(name@),
                None => None,
            },
            iq_file_dir: match self.iq_file_dir {
                Some(dir) => Some(dir@),
                None => None,
            },
        }
    }
}

impl ContextBuilder {
    /// A builder with neither name given.
    pub fn new() -> (builder: ContextBuilder)
        ensures
            builder@ == (ContextBuilderView { sns_ent_name: None, iq_file_dir: None }),
    {
        ContextBuilder { sns_ent_name: None, iq_file_dir: None }
    }

    /// Gives the name of the sensor entity; a name given before is replaced.
    pub fn sns_ent_name(self, val: &str) -> (builder: ContextBuilder)
        ensures
            builder@ == (ContextBuilderView {
                sns_ent_name: Some(val@),
                iq_file_dir: self@.iq_file_dir,
            }),
    {
        ContextBuilder { sns_ent_name: Some(val.to_owned()), iq_file_dir: self.iq_file_dir }
    }

    /// Gives the directory of the calibration files; one given before is
    /// replaced.
    pub fn iq_file_dir(self, val: &str) -> (builder: ContextBuilder)
        ensures
            builder@ == (ContextBuilderView {
                sns_ent_name: self@.sns_ent_name,
                iq_file_dir: Some(val@),
            }),
    {
        ContextBuilder { sns_ent_name: self.sns_ent_name, iq_file_dir: Some(val.to_owned()) }
    }

    /// The name of the sensor entity, where one was given.
    pub fn given_sns_ent_name(&self) -> (name: Option<&str>)
        ensures
            name is Some <==> self@.sns_ent_name is Some,
            name matches Some(text) ==> self@.sns_ent_name == Some(text@),
    {
        match &self.sns_ent_name {
            Some(name) => Some(name.as_str()),
            None => None,
        }
    }

    /// The directory of the calibration files, where one was given.
    pub fn given_iq_file_dir(&self) -> (dir: Option<&str>)
        ensures
            dir is Some <==> self@.iq_file_dir is Some,
            dir matches Some(text) ==> self@.iq_file_dir == Some(text@),
    {
        match &self.iq_file_dir {
            Some(dir) => Some(dir.as_str()),
            None => None,
        }
    }
}

impl Default for ContextBuilder {
    fn default() -> (builder: ContextBuilder)
        ensures
            builder@ == (ContextBuilderView { sns_ent_name: None, iq_file_dir: None }),
    {
        ContextBuilder::new()
    }
}

} // verus!
