//! The vocabulary of known tag and attribute names: names that the serializer
//! writes as symbolic values instead of string literals.
use vstd::prelude::*;

use crate::text::eq_ignore_ascii_case;
use crate::text::ascii_ci_eq;

verus! {
/// A tag name from the known vocabulary.
#[derive(Debug, Clone, Copy, PartialEq, Eq, Structural)]
pub enum KnownElementName {
    Address,
    Article,
    Aside,
    Footer,
    Header,
    Nav,
    Section,
    Hgroup,
    H1,
    H2,
    H3,
    H4,
    H5,
    H6,
    Main,
    Div,
    Span,
    P,
    Ol,
    Ul,
    Li,
    Dl,
    Dt,
    Dd,
    Figure,
    Figcaption,
    Hr,
    Pre,
    Blockquote,
    A,
    Bold,
    Italic,
    Underline,
    Strikethrough,
    Emphasis,
    Mark,
    Quotation,
    Citation,
    Code,
    Data,
    Time,
    Sub,
    Sup,
    Br,
    Wbr,
    Image,
    Area,
    ImageMap,
    Audio,
    Video,
    Track,
    Button,
    Datalist,
    Fieldset,
    Form,
    Input,
    Label,
    Legend,
    Meter,
    Optgroup,
    SelectOption,
    Output,
    Progress,
    Select,
    Textarea,
    Fragment,
    View,
    Text,
    TextInput,
    ScrollView,
    Picker,
    Slider,
    Switch,
    FlatList,
    SectionList,
}

impl KnownElementName {
    /// The symbol under which the node library knows this name.
    pub open spec fn spec_symbol(self) -> Seq<char> {
        match self {
            KnownElementName::Address => "Address"@,
            KnownElementName::Article => "Article"@,
            KnownElementName::Aside => "Aside"@,
            KnownElementName::Footer => "Footer"@,
            KnownElementName::Header => "Header"@,
            KnownElementName::Nav => "Nav"@,
            KnownElementName::Section => "Section"@,
            KnownElementName::Hgroup => "Hgroup"@,
            KnownElementName::H1 => "H1"@,
            KnownElementName::H2 => "H2"@,
            KnownElementName::H3 => "H3"@,
            KnownElementName::H4 => "H4"@,
            KnownElementName::H5 => "H5"@,
            KnownElementName::H6 => "H6"@,
            KnownElementName::Main => "Main"@,
            KnownElementName::Div => "Div"@,
            KnownElementName::Span => "Span"@,
            KnownElementName::P => "P"@,
            KnownElementName::Ol => "Ol"@,
            KnownElementName::Ul => "Ul"@,
            KnownElementName::Li => "Li"@,
            KnownElementName::Dl => "Dl"@,
            KnownElementName::Dt => "Dt"@,
            KnownElementName::Dd => "Dd"@,
            KnownElementName::Figure => "Figure"@,
            KnownElementName::Figcaption => "Figcaption"@,
            KnownElementName::Hr => "Hr"@,
            KnownElementName::Pre => "Pre"@,
            KnownElementName::Blockquote => "Blockquote"@,
            KnownElementName::A => "A"@,
            KnownElementName::Bold => "Bold"@,
            KnownElementName::Italic => "Italic"@,
            KnownElementName::Underline => "Underline"@,
            KnownElementName::Strikethrough => "Strikethrough"@,
            KnownElementName::Emphasis => "Emphasis"@,
            KnownElementName::Mark => "Mark"@,
            KnownElementName::Quotation => "Quotation"@,
            KnownElementName::Citation => "Citation"@,
            KnownElementName::Code => "Code"@,
            KnownElementName::Data => "Data"@,
            KnownElementName::Time => "Time"@,
            KnownElementName::Sub => "Sub"@,
            KnownElementName::Sup => "Sup"@,
            KnownElementName::Br => "Br"@,
            KnownElementName::Wbr => "Wbr"@,
            KnownElementName::Image => "Image"@,
            KnownElementName::Area => "Area"@,
            KnownElementName::ImageMap => "Map"@,
            KnownElementName::Audio => "Audio"@,
            KnownElementName::Video => "Video"@,
            KnownElementName::Track => "Track"@,
            KnownElementName::Button => "Button"@,
            KnownElementName::Datalist => "Datalist"@,
            KnownElementName::Fieldset => "Fieldset"@,
            KnownElementName::Form => "Form"@,
            KnownElementName::Input => "Input"@,
            KnownElementName::Label => "Label"@,
            KnownElementName::Legend => "Legend"@,
            KnownElementName::Meter => "Meter"@,
            KnownElementName::Optgroup => "Optgroup"@,
            KnownElementName::SelectOption => "Option"@,
            KnownElementName::Output => "Output"@,
            KnownElementName::Progress => "Progress"@,
            KnownElementName::Select => "Select"@,
            KnownElementName::Textarea => "Textarea"@,
            KnownElementName::Fragment => "Fragment"@,
            KnownElementName::View => "View"@,
            KnownElementName::Text => "Text"@,
            KnownElementName::TextInput => "TextInput"@,
            KnownElementName::ScrollView => "ScrollView"@,
            KnownElementName::Picker => "Picker"@,
            KnownElementName::Slider => "Slider"@,
            KnownElementName::Switch => "Switch"@,
            KnownElementName::FlatList => "FlatList"@,
            KnownElementName::SectionList => "SectionList"@,
        }
    }

    pub fn symbol(&self) -> (r: &'static str)
        ensures
            r@ == self.spec_symbol(),
    {
        match self {
            KnownElementName::Address => "Address",
            KnownElementName::Article => "Article",
            KnownElementName::Aside => "Aside",
            KnownElementName::Footer => "Footer",
            KnownElementName::Header => "Header",
            KnownElementName::Nav => "Nav",
            KnownElementName::Section => "Section",
            KnownElementName::Hgroup => "Hgroup",
            KnownElementName::H1 => "H1",
            KnownElementName::H2 => "H2",
            KnownElementName::H3 => "H3",
            KnownElementName::H4 => "H4",
            KnownElementName::H5 => "H5",
            KnownElementName::H6 => "H6",
            KnownElementName::Main => "Main",
            KnownElementName::Div => "Div",
            KnownElementName::Span => "Span",
            KnownElementName::P => "P",
            KnownElementName::Ol => "Ol",
            KnownElementName::Ul => "Ul",
            KnownElementName::Li => "Li",
            KnownElementName::Dl => "Dl",
            KnownElementName::Dt => "Dt",
            KnownElementName::Dd => "Dd",
            KnownElementName::Figure => "Figure",
            KnownElementName::Figcaption => "Figcaption",
            KnownElementName::Hr => "Hr",
            KnownElementName::Pre => "Pre",
            KnownElementName::Blockquote => "Blockquote",
            KnownElementName::A => "A",
            KnownElementName::Bold => "Bold",
            KnownElementName::Italic => "Italic",
            KnownElementName::Underline => "Underline",
            KnownElementName::Strikethrough => "Strikethrough",
            KnownElementName::Emphasis => "Emphasis",
            KnownElementName::Mark => "Mark",
            KnownElementName::Quotation => "Quotation",
            KnownElementName::Citation => "Citation",
            KnownElementName::Code => "Code",
            KnownElementName::Data => "Data",
            KnownElementName::Time => "Time",
            KnownElementName::Sub => "Sub",
            KnownElementName::Sup => "Sup",
            KnownElementName::Br => "Br",
            KnownElementName::Wbr => "Wbr",
            KnownElementName::Image => "Image",
            KnownElementName::Area => "Area",
            KnownElementName::ImageMap => "Map",
            KnownElementName::Audio => "Audio",
            KnownElementName::Video => "Video",
            KnownElementName::Track => "Track",
            KnownElementName::Button => "Button",
            KnownElementName::Datalist => "Datalist",
            KnownElementName::Fieldset => "Fieldset",
            KnownElementName::Form => "Form",
            KnownElementName::Input => "Input",
            KnownElementName::Label => "Label",
            KnownElementName::Legend => "Legend",
            KnownElementName::Meter => "Meter",
            KnownElementName::Optgroup => "Optgroup",
            KnownElementName::SelectOption => "Option",
            KnownElementName::Output => "Output",
            KnownElementName::Progress => "Progress",
            KnownElementName::Select => "Select",
            KnownElementName::Textarea => "Textarea",
            KnownElementName::Fragment => "Fragment",
            KnownElementName::View => "View",
            KnownElementName::Text => "Text",
            KnownElementName::TextInput => "TextInput",
            KnownElementName::ScrollView => "ScrollView",
            KnownElementName::Picker => "Picker",
            KnownElementName::Slider => "Slider",
            KnownElementName::Switch => "Switch",
            KnownElementName::FlatList => "FlatList",
            KnownElementName::SectionList => "SectionList",
        }
    }
}

/// The known tag name that `name` spells, ignoring ASCII case.
pub open spec fn spec_known_element_name(name: Seq<char>) -> Option<KnownElementName> {
    if ascii_ci_eq(name, "address"@) {
        Some(KnownElementName::Address)
    } else if ascii_ci_eq(name, "article"@) {
        Some(KnownElementName::Article)
    } else if ascii_ci_eq(name, "aside"@) {
        Some(KnownElementName::Aside)
    } else if ascii_ci_eq(name, "footer"@) {
        Some(KnownElementName::Footer)
    } else if ascii_ci_eq(name, "header"@) {
        Some(KnownElementName::Header)
    } else if ascii_ci_eq(name, "nav"@) {
        Some(KnownElementName::Nav)
    } else if ascii_ci_eq(name, "section"@) {
        Some(KnownElementName::Section)
    } else if ascii_ci_eq(name, "hgroup"@) {
        Some(KnownElementName::Hgroup)
    } else if ascii_ci_eq(name, "h1"@) {
        Some(KnownElementName::H1)
    } else if ascii_ci_eq(name, "h2"@) {
        Some(KnownElementName::H2)
    } else if ascii_ci_eq(name, "h3"@) {
        Some(KnownElementName::H3)
    } else if ascii_ci_eq(name, "h4"@) {
        Some(KnownElementName::H4)
    } else if ascii_ci_eq(name, "h5"@) {
        Some(KnownElementName::H5)
    } else if ascii_ci_eq(name, "h6"@) {
        Some(KnownElementName::H6)
    } else if ascii_ci_eq(name, "main"@) {
        Some(KnownElementName::Main)
    } else if ascii_ci_eq(name, "div"@) {
        Some(KnownElementName::Div)
    } else if ascii_ci_eq(name, "span"@) {
        Some(KnownElementName::Span)
    } else if ascii_ci_eq(name, "p"@) {
        Some(KnownElementName::P)
    } else if ascii_ci_eq(name, "ol"@) {
        Some(KnownElementName::Ol)
    } else if ascii_ci_eq(name, "ul"@) {
        Some(KnownElementName::Ul)
    } else if ascii_ci_eq(name, "li"@) {
        Some(KnownElementName::Li)
    } else if ascii_ci_eq(name, "dl"@) {
        Some(KnownElementName::Dl)
    } else if ascii_ci_eq(name, "dt"@) {
        Some(KnownElementName::Dt)
    } else if ascii_ci_eq(name, "dd"@) {
        Some(KnownElementName::Dd)
    } else if ascii_ci_eq(name, "figure"@) {
        Some(KnownElementName::Figure)
    } else if ascii_ci_eq(name, "figcaption"@) {
        Some(KnownElementName::Figcaption)
    } else if ascii_ci_eq(name, "hr"@) {
        Some(KnownElementName::Hr)
    } else if ascii_ci_eq(name, "pre"@) {
        Some(KnownElementName::Pre)
    } else if ascii_ci_eq(name, "blockquote"@) {
        Some(KnownElementName::Blockquote)
    } else if ascii_ci_eq(name, "a"@) {
        Some(KnownElementName::A)
    } else if ascii_ci_eq(name, "b"@) {
        Some(KnownElementName::Bold)
    } else if ascii_ci_eq(name, "i"@) {
        Some(KnownElementName::Italic)
    } else if ascii_ci_eq(name, "u"@) {
        Some(KnownElementName::Underline)
    } else if ascii_ci_eq(name, "s"@) {
        Some(KnownElementName::Strikethrough)
    } else if ascii_ci_eq(name, "em"@) {
        Some(KnownElementName::Emphasis)
    } else if ascii_ci_eq(name, "mark"@) {
        Some(KnownElementName::Mark)
    } else if ascii_ci_eq(name, "q"@) {
        Some(KnownElementName::Quotation)
    } else if ascii_ci_eq(name, "cite"@) {
        Some(KnownElementName::Citation)
    } else if ascii_ci_eq(name, "code"@) {
        Some(KnownElementName::Code)
    } else if ascii_ci_eq(name, "data"@) {
        Some(KnownElementName::Data)
    } else if ascii_ci_eq(name, "time"@) {
        Some(KnownElementName::Time)
    } else if ascii_ci_eq(name, "sub"@) {
        Some(KnownElementName::Sub)
    } else if ascii_ci_eq(name, "sup"@) {
        Some(KnownElementName::Sup)
    } else if ascii_ci_eq(name, "br"@) {
        Some(KnownElementName::Br)
    } else if ascii_ci_eq(name, "wbr"@) {
        Some(KnownElementName::Wbr)
    } else if ascii_ci_eq(name, "img"@) {
        Some(KnownElementName::Image)
    } else if ascii_ci_eq(name, "area"@) {
        Some(KnownElementName::Area)
    } else if ascii_ci_eq(name, "map"@) {
        Some(KnownElementName::ImageMap)
    } else if ascii_ci_eq(name, "audio"@) {
        Some(KnownElementName::Audio)
    } else if ascii_ci_eq(name, "video"@) {
        Some(KnownElementName::Video)
    } else if ascii_ci_eq(name, "track"@) {
        Some(KnownElementName::Track)
    } else if ascii_ci_eq(name, "button"@) {
        Some(KnownElementName::Button)
    } else if ascii_ci_eq(name, "datalist"@) {
        Some(KnownElementName::Datalist)
    } else if ascii_ci_eq(name, "fieldset"@) {
        Some(KnownElementName::Fieldset)
    } else if ascii_ci_eq(name, "form"@) {
        Some(KnownElementName::Form)
    } else if ascii_ci_eq(name, "input"@) {
        Some(KnownElementName::Input)
    } else if ascii_ci_eq(name, "label"@) {
        Some(KnownElementName::Label)
    } else if ascii_ci_eq(name, "legend"@) {
        Some(KnownElementName::Legend)
    } else if ascii_ci_eq(name, "meter"@) {
        Some(KnownElementName::Meter)
    } else if ascii_ci_eq(name, "optgroup"@) {
        Some(KnownElementName::Optgroup)
    } else if ascii_ci_eq(name, "option"@) {
        Some(KnownElementName::SelectOption)
    } else if ascii_ci_eq(name, "output"@) {
        Some(KnownElementName::Output)
    } else if ascii_ci_eq(name, "progress"@) {
        Some(KnownElementName::Progress)
    } else if ascii_ci_eq(name, "select"@) {
        Some(KnownElementName::Select)
    } else if ascii_ci_eq(name, "textarea"@) {
        Some(KnownElementName::Textarea)
    } else if ascii_ci_eq(name, "fragment"@) {
        Some(KnownElementName::Fragment)
    } else if ascii_ci_eq(name, "view"@) {
        Some(KnownElementName::View)
    } else if ascii_ci_eq(name, "text"@) {
        Some(KnownElementName::Text)
    } else if ascii_ci_eq(name, "image"@) {
        Some(KnownElementName::Image)
    } else if ascii_ci_eq(name, "textinput"@) {
        Some(KnownElementName::TextInput)
    } else if ascii_ci_eq(name, "scrollview"@) {
        Some(KnownElementName::ScrollView)
    } else if ascii_ci_eq(name, "picker"@) {
        Some(KnownElementName::Picker)
    } else if ascii_ci_eq(name, "slider"@) {
        Some(KnownElementName::Slider)
    } else if ascii_ci_eq(name, "switch"@) {
        Some(KnownElementName::Switch)
    } else if ascii_ci_eq(name, "flatlist"@) {
        Some(KnownElementName::FlatList)
    } else if ascii_ci_eq(name, "sectionlist"@) {
        Some(KnownElementName::SectionList)
    } else {
        None
    }
}

/// Looks `name` up in the vocabulary, ignoring ASCII case.
pub fn known_element_name(name: &str) -> (r: Option<KnownElementName>)
    ensures
        r == spec_known_element_name(name@),
{
    if eq_ignore_ascii_case(name, "address") {
        Some(KnownElementName::Address)
    } else if eq_ignore_ascii_case(name, "article") {
        Some(KnownElementName::Article)
    } else if eq_ignore_ascii_case(name, "aside") {
        Some(KnownElementName::Aside)
    } else if eq_ignore_ascii_case(name, "footer") {
        Some(KnownElementName::Footer)
    } else if eq_ignore_ascii_case(name, "header") {
        Some(KnownElementName::Header)
    } else if eq_ignore_ascii_case(name, "nav") {
        Some(KnownElementName::Nav)
    } else if eq_ignore_ascii_case(name, "section") {
        Some(KnownElementName::Section)
    } else if eq_ignore_ascii_case(name, "hgroup") {
        Some(KnownElementName::Hgroup)
    } else if eq_ignore_ascii_case(name, "h1") {
        Some(KnownElementName::H1)
    } else if eq_ignore_ascii_case(name, "h2") {
        Some(KnownElementName::H2)
    } else if eq_ignore_ascii_case(name, "h3") {
        Some(KnownElementName::H3)
    } else if eq_ignore_ascii_case(name, "h4") {
        Some(KnownElementName::H4)
    } else if eq_ignore_ascii_case(name, "h5") {
        Some(KnownElementName::H5)
    } else if eq_ignore_ascii_case(name, "h6") {
        Some(KnownElementName::H6)
    } else if eq_ignore_ascii_case(name, "main") {
        Some(KnownElementName::Main)
    } else if eq_ignore_ascii_case(name, "div") {
        Some(KnownElementName::Div)
    } else if eq_ignore_ascii_case(name, "span") {
        Some(KnownElementName::Span)
    } else if eq_ignore_ascii_case(name, "p") {
        Some(KnownElementName::P)
    } else if eq_ignore_ascii_case(name, "ol") {
        Some(KnownElementName::Ol)
    } else if eq_ignore_ascii_case(name, "ul") {
        Some(KnownElementName::Ul)
    } else if eq_ignore_ascii_case(name, "li") {
        Some(KnownElementName::Li)
    } else if eq_ignore_ascii_case(name, "dl") {
        Some(KnownElementName::Dl)
    } else if eq_ignore_ascii_case(name, "dt") {
        Some(KnownElementName::Dt)
    } else if eq_ignore_ascii_case(name, "dd") {
        Some(KnownElementName::Dd)
    } else if eq_ignore_ascii_case(name, "figure") {
        Some(KnownElementName::Figure)
    } else if eq_ignore_ascii_case(name, "figcaption") {
        Some(KnownElementName::Figcaption)
    } else if eq_ignore_ascii_case(name, "hr") {
        Some(KnownElementName::Hr)
    } else if eq_ignore_ascii_case(name, "pre") {
        Some(KnownElementName::Pre)
    } else if eq_ignore_ascii_case(name, "blockquote") {
        Some(KnownElementName::Blockquote)
    } else if eq_ignore_ascii_case(name, "a") {
        Some(KnownElementName::A)
    } else if eq_ignore_ascii_case(name, "b") {
        Some(KnownElementName::Bold)
    } else if eq_ignore_ascii_case(name, "i") {
        Some(KnownElementName::Italic)
    } else if eq_ignore_ascii_case(name, "u") {
        Some(KnownElementName::Underline)
    } else if eq_ignore_ascii_case(name, "s") {
        Some(KnownElementName::Strikethrough)
    } else if eq_ignore_ascii_case(name, "em") {
        Some(KnownElementName::Emphasis)
    } else if eq_ignore_ascii_case(name, "mark") {
        Some(KnownElementName::Mark)
    } else if eq_ignore_ascii_case(name, "q") {
        Some(KnownElementName::Quotation)
    } else if eq_ignore_ascii_case(name, "cite") {
        Some(KnownElementName::Citation)
    } else if eq_ignore_ascii_case(name, "code") {
        Some(KnownElementName::Code)
    } else if eq_ignore_ascii_case(name, "data") {
        Some(KnownElementName::Data)
    } else if eq_ignore_ascii_case(name, "time") {
        Some(KnownElementName::Time)
    } else if eq_ignore_ascii_case(name, "sub") {
        Some(KnownElementName::Sub)
    } else if eq_ignore_ascii_case(name, "sup") {
        Some(KnownElementName::Sup)
    } else if eq_ignore_ascii_case(name, "br") {
        Some(KnownElementName::Br)
    } else if eq_ignore_ascii_case(name, "wbr") {
        Some(KnownElementName::Wbr)
    } else if eq_ignore_ascii_case(name, "img") {
        Some(KnownElementName::Image)
    } else if eq_ignore_ascii_case(name, "area") {
        Some(KnownElementName::Area)
    } else if eq_ignore_ascii_case(name, "map") {
        Some(KnownElementName::ImageMap)
    } else if eq_ignore_ascii_case(name, "audio") {
        Some(KnownElementName::Audio)
    } else if eq_ignore_ascii_case(name, "video") {
        Some(KnownElementName::Video)
    } else if eq_ignore_ascii_case(name, "track") {
        Some(KnownElementName::Track)
    } else if eq_ignore_ascii_case(name, "button") {
        Some(KnownElementName::Button)
    } else if eq_ignore_ascii_case(name, "datalist") {
        Some(KnownElementName::Datalist)
    } else if eq_ignore_ascii_case(name, "fieldset") {
        Some(KnownElementName::Fieldset)
    } else if eq_ignore_ascii_case(name, "form") {
        Some(KnownElementName::Form)
    } else if eq_ignore_ascii_case(name, "input") {
        Some(KnownElementName::Input)
    } else if eq_ignore_ascii_case(name, "label") {
        Some(KnownElementName::Label)
    } else if eq_ignore_ascii_case(name, "legend") {
        Some(KnownElementName::Legend)
    } else if eq_ignore_ascii_case(name, "meter") {
        Some(KnownElementName::Meter)
    } else if eq_ignore_ascii_case(name, "optgroup") {
        Some(KnownElementName::Optgroup)
    } else if eq_ignore_ascii_case(name, "option") {
        Some(KnownElementName::SelectOption)
    } else if eq_ignore_ascii_case(name, "output") {
        Some(KnownElementName::Output)
    } else if eq_ignore_ascii_case(name, "progress") {
        Some(KnownElementName::Progress)
    } else if eq_ignore_ascii_case(name, "select") {
        Some(KnownElementName::Select)
    } else if eq_ignore_ascii_case(name, "textarea") {
        Some(KnownElementName::Textarea)
    } else if eq_ignore_ascii_case(name, "fragment") {
        Some(KnownElementName::Fragment)
    } else if eq_ignore_ascii_case(name, "view") {
        Some(KnownElementName::View)
    } else if eq_ignore_ascii_case(name, "text") {
        Some(KnownElementName::Text)
    } else if eq_ignore_ascii_case(name, "image") {
        Some(KnownElementName::Image)
    } else if eq_ignore_ascii_case(name, "textinput") {
        Some(KnownElementName::TextInput)
    } else if eq_ignore_ascii_case(name, "scrollview") {
        Some(KnownElementName::ScrollView)
    } else if eq_ignore_ascii_case(name, "picker") {
        Some(KnownElementName::Picker)
    } else if eq_ignore_ascii_case(name, "slider") {
        Some(KnownElementName::Slider)
    } else if eq_ignore_ascii_case(name, "switch") {
        Some(KnownElementName::Switch)
    } else if eq_ignore_ascii_case(name, "flatlist") {
        Some(KnownElementName::FlatList)
    } else if eq_ignore_ascii_case(name, "sectionlist") {
        Some(KnownElementName::SectionList)
    } else {
        None
    }
}

/// A attribute name from the known vocabulary.
#[derive(Debug, Clone, Copy, PartialEq, Eq, Structural)]
pub enum KnownAttributeName {
    Accesskey,
    Class,
    CntEditable,
    Contextmenu,
    Dir,
    Draggable,
    Dropzone,
    Hidden,
    Id,
    Lang,
    Spellcheck,
    Src,
    Style,
    Tabindex,
    Title,
    Translate,
}

impl KnownAttributeName {
    /// The symbol under which the node library knows this name.
    pub open spec fn spec_symbol(self) -> Seq<char> {
        match self {
            KnownAttributeName::Accesskey => "Accesskey"@,
            KnownAttributeName::Class => "Class"@,
            KnownAttributeName::CntEditable => "CntEditable"@,
            KnownAttributeName::Contextmenu => "Contextmenu"@,
            KnownAttributeName::Dir => "Dir"@,
            KnownAttributeName::Draggable => "Draggable"@,
            KnownAttributeName::Dropzone => "Dropzone"@,
            KnownAttributeName::Hidden => "Hidden"@,
            KnownAttributeName::Id => "Id"@,
            KnownAttributeName::Lang => "Lang"@,
            KnownAttributeName::Spellcheck => "Spellcheck"@,
            KnownAttributeName::Src => "Src"@,
            KnownAttributeName::Style => "Style"@,
            KnownAttributeName::Tabindex => "Tabindex"@,
            KnownAttributeName::Title => "Title"@,
            KnownAttributeName::Translate => "Translate"@,
        }
    }

    pub fn symbol(&self) -> (r: &'static str)
        ensures
            r@ == self.spec_symbol(),
    {
        match self {
            KnownAttributeName::Accesskey => "Accesskey",
            KnownAttributeName::Class => "Class",
            KnownAttributeName::CntEditable => "CntEditable",
            KnownAttributeName::Contextmenu => "Contextmenu",
            KnownAttributeName::Dir => "Dir",
            KnownAttributeName::Draggable => "Draggable",
            KnownAttributeName::Dropzone => "Dropzone",
            KnownAttributeName::Hidden => "Hidden",
            KnownAttributeName::Id => "Id",
            KnownAttributeName::Lang => "Lang",
            KnownAttributeName::Spellcheck => "Spellcheck",
            KnownAttributeName::Src => "Src",
            KnownAttributeName::Style => "Style",
            KnownAttributeName::Tabindex => "Tabindex",
            KnownAttributeName::Title => "Title",
            KnownAttributeName::Translate => "Translate",
        }
    }
}

/// The known attribute name that `name` spells, ignoring ASCII case.
pub open spec fn spec_known_attribute_name(name: Seq<char>) -> Option<KnownAttributeName> {
    if ascii_ci_eq(name, "accesskey"@) {
        Some(KnownAttributeName::Accesskey)
    } else if ascii_ci_eq(name, "class"@) {
        Some(KnownAttributeName::Class)
    } else if ascii_ci_eq(name, "contenteditable"@) {
        Some(KnownAttributeName::CntEditable)
    } else if ascii_ci_eq(name, "contextmenu"@) {
        Some(KnownAttributeName::Contextmenu)
    } else if ascii_ci_eq(name, "dir"@) {
        Some(KnownAttributeName::Dir)
    } else if ascii_ci_eq(name, "draggable"@) {
        Some(KnownAttributeName::Draggable)
    } else if ascii_ci_eq(name, "dropzone"@) {
        Some(KnownAttributeName::Dropzone)
    } else if ascii_ci_eq(name, "hidden"@) {
        Some(KnownAttributeName::Hidden)
    } else if ascii_ci_eq(name, "id"@) {
        Some(KnownAttributeName::Id)
    } else if ascii_ci_eq(name, "lang"@) {
        Some(KnownAttributeName::Lang)
    } else if ascii_ci_eq(name, "spellcheck"@) {
        Some(KnownAttributeName::Spellcheck)
    } else if ascii_ci_eq(name, "src"@) {
        Some(KnownAttributeName::Src)
    } else if ascii_ci_eq(name, "style"@) {
        Some(KnownAttributeName::Style)
    } else if ascii_ci_eq(name, "tabindex"@) {
        Some(KnownAttributeName::Tabindex)
    } else if ascii_ci_eq(name, "title"@) {
        Some(KnownAttributeName::Title)
    } else if ascii_ci_eq(name, "translate"@) {
        Some(KnownAttributeName::Translate)
    } else {
        None
    }
}

/// Looks `name` up in the vocabulary, ignoring ASCII case.
pub fn known_attribute_name(name: &str) -> (r: Option<KnownAttributeName>)
    ensures
        r == spec_known_attribute_name(name@),
{
    if eq_ignore_ascii_case(name, "accesskey") {
        Some(KnownAttributeName::Accesskey)
    } else if eq_ignore_ascii_case(name, "class") {
        Some(KnownAttributeName::Class)
    } else if eq_ignore_ascii_case(name, "contenteditable") {
        Some(KnownAttributeName::CntEditable)
    } else if eq_ignore_ascii_case(name, "contextmenu") {
        Some(KnownAttributeName::Contextmenu)
    } else if eq_ignore_ascii_case(name, "dir") {
        Some(KnownAttributeName::Dir)
    } else if eq_ignore_ascii_case(name, "draggable") {
        Some(KnownAttributeName::Draggable)
    } else if eq_ignore_ascii_case(name, "dropzone") {
        Some(KnownAttributeName::Dropzone)
    } else if eq_ignore_ascii_case(name, "hidden") {
        Some(KnownAttributeName::Hidden)
    } else if eq_ignore_ascii_case(name, "id") {
        Some(KnownAttributeName::Id)
    } else if eq_ignore_ascii_case(name, "lang") {
        Some(KnownAttributeName::Lang)
    } else if eq_ignore_ascii_case(name, "spellcheck") {
        Some(KnownAttributeName::Spellcheck)
    } else if eq_ignore_ascii_case(name, "src") {
        Some(KnownAttributeName::Src)
    } else if eq_ignore_ascii_case(name, "style") {
        Some(KnownAttributeName::Style)
    } else if eq_ignore_ascii_case(name, "tabindex") {
        Some(KnownAttributeName::Tabindex)
    } else if eq_ignore_ascii_case(name, "title") {
        Some(KnownAttributeName::Title)
    } else if eq_ignore_ascii_case(name, "translate") {
        Some(KnownAttributeName::Translate)
    } else {
        None
    }
}

} // verus!
