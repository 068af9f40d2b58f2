//! Operating-system strings and paths as plain values.
//!
//! A native string is text whenever the host value is valid Unicode; otherwise
//! it keeps the host's own units. A native path keeps the components that the
//! host's path syntax yields, so that containment and equality are decided on
//! components and never on spelling.

use crate::model;
use vstd::prelude::*;
use vstd::string::*;

verus! {

/// A string of the host operating system.
#[derive(Debug, PartialEq, Eq)]
pub enum NativeString {
    /// Valid Unicode text.
    Unicode(String),
    /// Unix bytes that are not valid UTF-8.
    Bytes(Vec<u8>),
    /// Windows code units that are not valid UTF-16.
    Wide(Vec<u16>),
}

/// What a [`NativeString`] holds.
pub enum NativeText {
    Unicode(Seq<char>),
    Bytes(Seq<u8>),
    Wide(Seq<u16>),
}

impl DeepView for NativeString {
    type V = NativeText;

    open spec fn deep_view(&self) -> NativeText {
        match self {
            NativeString::Unicode(text) => NativeText::Unicode(text@),
            NativeString::Bytes(bytes) => NativeText::Bytes(bytes@),
            NativeString::Wide(units) => NativeText::Wide(units@),
        }
    }
}

impl View for NativeString {
    type V = NativeText;

    open spec fn view(&self) -> NativeText {
        self.deep_view()
    }
}

impl NativeText {
    /// Whether the value is valid Unicode.
    pub open spec fn is_unicode(self) -> bool {
        self is Unicode
    }

    /// Whether the value holds nothing.
    pub open spec fn is_empty(self) -> bool {
        match self {
            NativeText::Unicode(text) => text.len() == 0,
            NativeText::Bytes(bytes) => bytes.len() == 0,
            NativeText::Wide(units) => units.len() == 0,
        }
    }

    /// Whether a unit of the value is zero.
    pub open spec fn has_nul(self) -> bool {
        match self {
            NativeText::Unicode(text) => text.contains('\0'),
            NativeText::Bytes(bytes) => bytes.contains(0u8),
            NativeText::Wide(units) => units.contains(0u16),
        }
    }

    /// The value for display, with a replacement character for what is not Unicode.
    pub open spec fn display(self) -> Seq<char> {
        match self {
            NativeText::Unicode(text) => text,
            NativeText::Bytes(bytes) => lossy_utf8(bytes),
            NativeText::Wide(units) => crate::utf16::shown(units),
        }
    }
}

/// The text of bytes in which invalid UTF-8 is replaced.
pub uninterp spec fn lossy_utf8(bytes: Seq<u8>) -> Seq<char>;

/// Calls `String::from_utf8_lossy`, whose result depends on the bytes alone.
#[verifier::external_body]
fn text_from_utf8_lossy(bytes: &Vec<u8>) -> (result: String)
    ensures
        result@ == lossy_utf8(bytes@),
{
    String::from_utf8_lossy(bytes).into_owned()
}

/// The characters of a text, in order.
pub fn chars_of(text: &str) -> (result: Vec<char>)
    ensures
        result@ == text@,
{
    let mut result: Vec<char> = Vec::new();
    for ch in iter: text.chars()
        invariant
            iter.seq() == text@,
            result@ == text@.take(iter.index() as int),
    {
        result.push(ch);
        assert(text@.take(iter.index() + 1) =~= text@.take(iter.index() as int).push(ch));
    }
    assert(text@.take(text@.len() as int) =~= text@);
    result
}

/// Whether two texts hold the same characters.
pub fn same_text(left: &str, right: &str) -> (result: bool)
    ensures
        result == (left@ == right@),
{
    let left = left.to_owned();
    let right = right.to_owned();
    left == right
}

fn same_bytes(left: &Vec<u8>, right: &Vec<u8>) -> (result: bool)
    ensures
        result == (left@ == right@),
{
    let result = left == right;
    assert(result ==> left@ =~= right@);
    result
}

fn same_units(left: &Vec<u16>, right: &Vec<u16>) -> (result: bool)
    ensures
        result == (left@ == right@),
{
    let result = left == right;
    assert(result ==> left@ =~= right@);
    result
}

/// Whether a character occurs in a text.
pub fn text_contains(text: &str, wanted: char) -> (result: bool)
    ensures
        result == text@.contains(wanted),
{
    let chars = chars_of(text);
    for index in 0..chars.len()
        invariant
            chars@ == text@,
            forall|i: int| 0 <= i < index ==> chars@[i] != wanted,
    {
        if chars[index] == wanted {
            assert(text@[index as int] == wanted);
            return true;
        }
    }
    false
}

fn bytes_have_nul(bytes: &Vec<u8>) -> (result: bool)
    ensures
        result == bytes@.contains(0u8),
{
    for index in 0..bytes.len()
        invariant
            forall|i: int| 0 <= i < index ==> bytes@[i] != 0,
    {
        if bytes[index] == 0 {
            assert(bytes@[index as int] == 0);
            return true;
        }
    }
    false
}

fn units_have_nul(units: &Vec<u16>) -> (result: bool)
    ensures
        result == units@.contains(0u16),
{
    for index in 0..units.len()
        invariant
            forall|i: int| 0 <= i < index ==> units@[i] != 0,
    {
        if units[index] == 0 {
            assert(units@[index as int] == 0);
            return true;
        }
    }
    false
}

impl NativeString {
    /// A native string of valid Unicode text.
    pub fn from_text(text: &str) -> (result: Self)
        ensures
            result@ == NativeText::Unicode(text@),
    {
        NativeString::Unicode(text.to_owned())
    }

    /// The text, when the value is valid Unicode.
    pub fn to_text(&self) -> (result: Option<&String>)
        ensures
            result is Some <==> self@.is_unicode(),
            result matches Some(text) ==> self@ == NativeText::Unicode(text@),
    {
        match self {
            NativeString::Unicode(text) => Some(text),
            _ => None,
        }
    }

    pub fn is_unicode(&self) -> (result: bool)
        ensures
            result == self@.is_unicode(),
    {
        match self {
            NativeString::Unicode(_) => true,
            _ => false,
        }
    }

    pub fn is_empty(&self) -> (result: bool)
        ensures
            result == self@.is_empty(),
    {
        match self {
            NativeString::Unicode(text) => text.as_str().is_empty(),
            NativeString::Bytes(bytes) => bytes.len() == 0,
            NativeString::Wide(units) => units.len() == 0,
        }
    }

    /// Whether the value holds an interior NUL.
    pub fn has_nul(&self) -> (result: bool)
        ensures
            result == self@.has_nul(),
    {
        match self {
            NativeString::Unicode(text) => text_contains(text.as_str(), '\0'),
            NativeString::Bytes(bytes) => bytes_have_nul(bytes),
            NativeString::Wide(units) => units_have_nul(units),
        }
    }

    /// Whether both values are the same.
    pub fn same(&self, other: &Self) -> (result: bool)
        ensures
            result == (self@ == other@),
    {
        match (self, other) {
            (NativeString::Unicode(left), NativeString::Unicode(right)) => *left == *right,
            (NativeString::Bytes(left), NativeString::Bytes(right)) => same_bytes(left, right),
            (NativeString::Wide(left), NativeString::Wide(right)) => same_units(left, right),
            _ => false,
        }
    }

    /// The value for display.
    pub fn display(&self) -> (result: String)
        ensures
            result@ == self@.display(),
    {
        match self {
            NativeString::Unicode(text) => text.clone(),
            NativeString::Bytes(bytes) => text_from_utf8_lossy(bytes),
            NativeString::Wide(units) => crate::utf16::show_utf16(units),
        }
    }
}

impl Clone for NativeString {
    fn clone(&self) -> (result: Self)
        ensures
            result@ == self@,
    {
        match self {
            NativeString::Unicode(text) => NativeString::Unicode(text.clone()),
            NativeString::Bytes(bytes) => {
                let copy = bytes.clone();
                assert(copy@ =~= bytes@);
                NativeString::Bytes(copy)
            },
            NativeString::Wide(units) => {
                let copy = units.clone();
                assert(copy@ =~= units@);
                NativeString::Wide(copy)
            },
        }
    }
}

/// The prefix of a Windows path.
#[derive(Debug, PartialEq, Eq)]
pub enum PathPrefix {
    Verbatim(NativeString),
    VerbatimUnc(NativeString, NativeString),
    /// The drive letter in upper case.
    VerbatimDisk(u8),
    DeviceNs(NativeString),
    Unc(NativeString, NativeString),
    /// The drive letter in upper case.
    Disk(u8),
}

/// What a [`PathPrefix`] holds.
pub enum PrefixModel {
    Verbatim(NativeText),
    VerbatimUnc(NativeText, NativeText),
    VerbatimDisk(u8),
    DeviceNs(NativeText),
    Unc(NativeText, NativeText),
    Disk(u8),
}

impl DeepView for PathPrefix {
    type V = PrefixModel;

    open spec fn deep_view(&self) -> PrefixModel {
        match self {
            PathPrefix::Verbatim(name) => PrefixModel::Verbatim(name@),
            PathPrefix::VerbatimUnc(server, share) => PrefixModel::VerbatimUnc(server@, share@),
            PathPrefix::VerbatimDisk(letter) => PrefixModel::VerbatimDisk(*letter),
            PathPrefix::DeviceNs(name) => PrefixModel::DeviceNs(name@),
            PathPrefix::Unc(server, share) => PrefixModel::Unc(server@, share@),
            PathPrefix::Disk(letter) => PrefixModel::Disk(*letter),
        }
    }
}

impl View for PathPrefix {
    type V = PrefixModel;

    open spec fn view(&self) -> PrefixModel {
        self.deep_view()
    }
}

impl PathPrefix {
    fn same(&self, other: &Self) -> (result: bool)
        ensures
            result == (self@ == other@),
    {
        match (self, other) {
            (PathPrefix::Verbatim(left), PathPrefix::Verbatim(right)) => left.same(right),
            (PathPrefix::VerbatimUnc(left, left_share), PathPrefix::VerbatimUnc(right, right_share)) => {
                left.same(right) && left_share.same(right_share)
            },
            (PathPrefix::VerbatimDisk(left), PathPrefix::VerbatimDisk(right)) => *left == *right,
            (PathPrefix::DeviceNs(left), PathPrefix::DeviceNs(right)) => left.same(right),
            (PathPrefix::Unc(left, left_share), PathPrefix::Unc(right, right_share)) => {
                left.same(right) && left_share.same(right_share)
            },
            (PathPrefix::Disk(left), PathPrefix::Disk(right)) => *left == *right,
            _ => false,
        }
    }
}

impl Clone for PathPrefix {
    fn clone(&self) -> (result: Self)
        ensures
            result@ == self@,
    {
        match self {
            PathPrefix::Verbatim(name) => PathPrefix::Verbatim(name.clone()),
            PathPrefix::VerbatimUnc(server, share) => PathPrefix::VerbatimUnc(server.clone(), share.clone()),
            PathPrefix::VerbatimDisk(letter) => PathPrefix::VerbatimDisk(*letter),
            PathPrefix::DeviceNs(name) => PathPrefix::DeviceNs(name.clone()),
            PathPrefix::Unc(server, share) => PathPrefix::Unc(server.clone(), share.clone()),
            PathPrefix::Disk(letter) => PathPrefix::Disk(*letter),
        }
    }
}

/// One component of a native path.
#[derive(Debug, PartialEq, Eq)]
pub enum PathComponent {
    Prefix(PathPrefix),
    RootDir,
    CurDir,
    ParentDir,
    Normal(NativeString),
}

/// What a [`PathComponent`] holds.
pub enum ComponentModel {
    Prefix(PrefixModel),
    RootDir,
    CurDir,
    ParentDir,
    Normal(NativeText),
}

impl DeepView for PathComponent {
    type V = ComponentModel;

    open spec fn deep_view(&self) -> ComponentModel {
        match self {
            PathComponent::Prefix(prefix) => ComponentModel::Prefix(prefix@),
            PathComponent::RootDir => ComponentModel::RootDir,
            PathComponent::CurDir => ComponentModel::CurDir,
            PathComponent::ParentDir => ComponentModel::ParentDir,
            PathComponent::Normal(name) => ComponentModel::Normal(name@),
        }
    }
}

impl View for PathComponent {
    type V = ComponentModel;

    open spec fn view(&self) -> ComponentModel {
        self.deep_view()
    }
}

impl PathComponent {
    fn same(&self, other: &Self) -> (result: bool)
        ensures
            result == (self@ == other@),
    {
        match (self, other) {
            (PathComponent::Prefix(left), PathComponent::Prefix(right)) => left.same(right),
            (PathComponent::RootDir, PathComponent::RootDir) => true,
            (PathComponent::CurDir, PathComponent::CurDir) => true,
            (PathComponent::ParentDir, PathComponent::ParentDir) => true,
            (PathComponent::Normal(left), PathComponent::Normal(right)) => left.same(right),
            _ => false,
        }
    }
}

impl Clone for PathComponent {
    fn clone(&self) -> (result: Self)
        ensures
            result@ == self@,
    {
        match self {
            PathComponent::Prefix(prefix) => PathComponent::Prefix(prefix.clone()),
            PathComponent::RootDir => PathComponent::RootDir,
            PathComponent::CurDir => PathComponent::CurDir,
            PathComponent::ParentDir => PathComponent::ParentDir,
            PathComponent::Normal(name) => PathComponent::Normal(name.clone()),
        }
    }
}

/// A path of the host operating system.
#[derive(Debug)]
pub struct NativePath {
    /// The path as it was written.
    pub text: NativeString,
    /// Whether the host's path syntax makes the path absolute.
    pub absolute: bool,
    /// The components that the host's path syntax yields.
    pub components: Vec<PathComponent>,
}

/// What a [`NativePath`] holds.
pub struct PathModel {
    pub text: NativeText,
    pub absolute: bool,
    pub components: Seq<ComponentModel>,
}

impl DeepView for NativePath {
    type V = PathModel;

    open spec fn deep_view(&self) -> PathModel {
        PathModel {
            text: self.text@,
            absolute: self.absolute,
            components: self.components.deep_view(),
        }
    }
}

impl View for NativePath {
    type V = PathModel;

    open spec fn view(&self) -> PathModel {
        self.deep_view()
    }
}

impl PathModel {
    /// Whether the path lies at or below `base`.
    pub open spec fn starts_with(self, base: PathModel) -> bool {
        base.components.is_prefix_of(self.components)
    }

    /// Whether both paths have the same components.
    pub open spec fn same_path(self, other: PathModel) -> bool {
        self.components == other.components
    }

    /// Whether the last component names something below another directory.
    pub open spec fn has_parent(self) -> bool {
        self.components.len() > 0 && !(self.components.last() is Prefix)
            && !(self.components.last() is RootDir)
    }

    /// The path's own final name, when it has one.
    pub open spec fn file_name(self) -> Option<NativeText> {
        if self.components.len() > 0 && self.components.last() is Normal {
            Some(self.components.last()->Normal_0)
        } else {
            None
        }
    }

    /// The components of the entry called `name` below this path.
    pub open spec fn child_components(self, name: NativeText) -> Seq<ComponentModel> {
        self.components.push(ComponentModel::Normal(name))
    }
}

/// Whether the components of `base` lead the components of `path`.
pub fn components_start_with(path: &Vec<PathComponent>, base: &Vec<PathComponent>) -> (result: bool)
    ensures
        result == base.deep_view().is_prefix_of(path.deep_view()),
{
    let ghost whole = path.deep_view();
    let ghost lead = base.deep_view();
    if base.len() > path.len() {
        return false;
    }
    for index in 0..base.len()
        invariant
            base.len() <= path.len(),
            whole == path.deep_view(),
            lead == base.deep_view(),
            forall|i: int| 0 <= i < index ==> lead[i] == whole[i],
    {
        if !base[index].same(&path[index]) {
            assert(lead[index as int] != whole[index as int]);
            assert(whole.subrange(0, lead.len() as int)[index as int] == whole[index as int]);
            return false;
        }
    }
    assert(lead =~= whole.subrange(0, lead.len() as int));
    true
}

impl NativePath {
    /// Whether the path lies at or below `base`.
    pub fn starts_with(&self, base: &NativePath) -> (result: bool)
        ensures
            result == self@.starts_with(base@),
    {
        components_start_with(&self.components, &base.components)
    }

    /// Whether both paths have the same components.
    pub fn same_path(&self, other: &NativePath) -> (result: bool)
        ensures
            result == self@.same_path(other@),
    {
        let result = self.components.len() == other.components.len()
            && components_start_with(&self.components, &other.components);
        proof {
            let left = self@.components;
            let right = other@.components;
            if left.len() == right.len() {
                assert(left.subrange(0, right.len() as int) =~= left);
            }
        }
        result
    }

    /// Whether the path names something below another directory.
    pub fn has_parent(&self) -> (result: bool)
        ensures
            result == self@.has_parent(),
    {
        let count: usize = self.components.len();
        if count == 0 {
            return false;
        }
        match &self.components[count - 1] {
            PathComponent::Prefix(_) => false,
            PathComponent::RootDir => false,
            _ => true,
        }
    }

    /// The path's own final name, when it has one.
    pub fn file_name(&self) -> (result: Option<&NativeString>)
        ensures
            result is Some == self@.file_name() is Some,
            result matches Some(name) ==> self@.file_name() == Some(name@),
    {
        let count: usize = self.components.len();
        if count == 0 {
            return None;
        }
        match &self.components[count - 1] {
            PathComponent::Normal(name) => Some(name),
            _ => None,
        }
    }

    /// Whether the path is valid Unicode.
    pub fn is_unicode(&self) -> (result: bool)
        ensures
            result == self@.text.is_unicode(),
    {
        self.text.is_unicode()
    }
}

impl Clone for NativePath {
    fn clone(&self) -> (result: Self)
        ensures
            result@ == self@,
    {
        let mut components: Vec<PathComponent> = Vec::new();
        for index in 0..self.components.len()
            invariant
                components.deep_view() == self.components.deep_view().take(index as int),
        {
            let ghost before = components;
            let component = self.components[index].clone();
            components.push(component);
            proof {
                model::lemma_deep_push(before, components, component);
                model::lemma_take_push(self.components.deep_view(), index as int);
            }
        }
        assert(components.deep_view() =~= self.components.deep_view());
        NativePath { text: self.text.clone(), absolute: self.absolute, components }
    }
}

/// Paths are equal when their components are, whatever their spelling.
impl PartialEq for NativePath {
    fn eq(&self, other: &Self) -> (result: bool) {
        self.same_path(other)
    }
}

impl vstd::std_specs::cmp::PartialEqSpecImpl for NativePath {
    open spec fn obeys_eq_spec() -> bool {
        true
    }

    open spec fn eq_spec(&self, other: &Self) -> bool {
        self@.same_path(other@)
    }
}

impl Eq for NativePath {}

/// A value is empty exactly when it has no unit, and holds a NUL exactly when some unit is
/// zero, however it is encoded.
pub proof fn values_are_their_units(value: NativeText)
    ensures
        value matches NativeText::Unicode(text) ==> {
            &&& value.is_unicode()
            &&& value.display() == text
            &&& value.is_empty() <==> text.len() == 0
            &&& value.has_nul() <==> exists|index: int| 0 <= index < text.len() && text[index] == '\0'
        },
        value matches NativeText::Bytes(bytes) ==> {
            &&& !value.is_unicode()
            &&& value.is_empty() <==> bytes.len() == 0
            &&& value.has_nul() <==> exists|index: int| 0 <= index < bytes.len() && bytes[index] == 0
        },
        value matches NativeText::Wide(units) ==> {
            &&& !value.is_unicode()
            &&& value.is_empty() <==> units.len() == 0
            &&& value.has_nul() <==> exists|index: int| 0 <= index < units.len() && units[index] == 0
        },
{
}

/// A path has a parent exactly when it ends in something below a root, and is the same as
/// another exactly when both go through the same components.
pub proof fn paths_are_their_components(path: PathModel, other: PathModel, name: NativeText)
    ensures
        path.same_path(other) <==> path.components.len() == other.components.len() && forall|index: int|
            0 <= index < path.components.len() ==> path.components[index] == other.components[index],
        path.components.len() == 0 ==> !path.has_parent(),
        path.components.len() > 0 ==> (path.has_parent() <==> match path.components.last() {
            ComponentModel::Prefix(_) => false,
            ComponentModel::RootDir => false,
            _ => true,
        }),
        path.file_name() == Some(name) <==> path.components.len() > 0 && path.components.last()
            == ComponentModel::Normal(name),
        path.child_components(name).drop_last() == path.components,
        path.child_components(name).last() == ComponentModel::Normal(name),
{
    if path.components.len() == other.components.len() && forall|index: int|
        0 <= index < path.components.len() ==> path.components[index] == other.components[index] {
        assert(path.components =~= other.components);
    }
    assert(path.child_components(name).drop_last() =~= path.components);
}

} // verus!
