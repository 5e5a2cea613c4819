//! The descriptor that is kept on disk for each upload.

use crate::size::Size;
use vstd::prelude::*;

verus! {

/// The content of one `.meta` file: what was uploaded, how large it is, and
/// which data file holds its content.
#[derive(Debug, Clone)]
pub struct Metadata {
    name: String,
    extension: String,
    size: Size,
    data_file_name: String,
}

/// What a `Metadata` holds, as plain values.
pub struct MetadataView {
    pub name: Seq<char>,
    pub extension: Seq<char>,
    pub size: Size,
    pub data_file_name: Seq<char>,
}

impl View for Metadata {
    type V = MetadataView;

    closed spec fn view(&self) -> MetadataView {
        MetadataView {
            name: self.name@,
            extension: self.extension@,
            size: self.size,
            data_file_name: self.data_file_name@,
        }
    }
}

impl Metadata {
    pub fn new(name: String, extension: String, size: Size, data_file_name: String) -> (metadata:
        Self)
        ensures
            metadata@.name == name@,
            metadata@.extension == extension@,
            metadata@.size == size,
            metadata@.data_file_name == data_file_name@,
    {
        Self { name, extension, size, data_file_name }
    }

    pub fn name(&self) -> (name: &String)
        ensures
            name@ == self@.name,
    {
        &self.name
    }

    pub fn extension(&self) -> (extension: &String)
        ensures
            extension@ == self@.extension,
    {
        &self.extension
    }

    pub fn size(&self) -> (size: &Size)
        ensures
            *size == self@.size,
    {
        &self.size
    }

    pub fn data_file_name(&self) -> (data_file_name: &String)
        ensures
            data_file_name@ == self@.data_file_name,
    {
        &self.data_file_name
    }
}

} // verus!
