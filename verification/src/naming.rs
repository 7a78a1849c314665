//! Names derived from a field's declared name: the name of its update
//! action, its label, and the class names of its rendered elements.

use vstd::prelude::*;
use convert_case::{Case, Casing};

verus! {

/// The word casings that the derived names use.
#[derive(Clone, Copy, Debug, PartialEq, Eq, Structural)]
pub enum CaseStyle {
    /// Capitalized words joined without a delimiter, `AgreeToTerms`.
    UpperCamel,
    /// Lower-case words joined by hyphens, `agree-to-terms`.
    Kebab,
    /// Capitalized words joined by spaces, `Agree To Terms`.
    Title,
}

/// The text that case conversion makes of `text` in the given style.
pub uninterp spec fn cased(text: Seq<char>, style: CaseStyle) -> Seq<char>;

/// Calls `convert_case::Casing::to_case` on `text` with the case that `style`
/// stands for. The conversion splits the text into words and joins them again
/// in the new casing; it is a function of the text and the case alone and
/// does not fail. Its result is not spelled out here, only named: `cased`.
#[verifier::external_body]
fn to_case(text: &str, style: CaseStyle) -> (out: String)
    ensures
        out@ == cased(text@, style),
{
    let case = match style {
        CaseStyle::UpperCamel => Case::UpperCamel,
        CaseStyle::Kebab => Case::Kebab,
        CaseStyle::Title => Case::Title,
    };
    text.to_case(case)
}

/// Which family of input element a class name is for.
#[derive(Clone, Copy, Debug, PartialEq, Eq, Structural)]
pub enum KindFamily {
    /// Text-like fields.
    Txt,
    /// Boolean-like fields.
    Checkbox,
}

/// Which element of a rendered field a class name is for.
#[derive(Clone, Copy, Debug, PartialEq, Eq, Structural)]
pub enum Element {
    Label,
    Input,
}

/// The token that stands for a family in class names.
pub open spec fn family_token(family: KindFamily) -> Seq<char> {
    match family {
        KindFamily::Txt => "txt"@,
        KindFamily::Checkbox => "checkbox"@,
    }
}

/// The suffix that stands for an element in class names.
pub open spec fn element_suffix(element: Element) -> Seq<char> {
    match element {
        Element::Label => "-label"@,
        Element::Input => "-input"@,
    }
}

/// The name of a field's update action, given the field's name in upper camel
/// case.
pub open spec fn action_name_with(camel: Seq<char>) -> Seq<char> {
    "Update"@ + camel
}

/// The class attribute of an element, given the field's name in kebab case:
/// the field's own class, the class of the element's family, and the token
/// `required` when the element is decorated.
pub open spec fn element_class_with(
    kebab: Seq<char>,
    family: KindFamily,
    element: Element,
    required: bool,
) -> Seq<char> {
    let base = kebab + element_suffix(element) + " formula-y-"@ + family_token(family)
        + element_suffix(element);
    if required {
        base + " required"@
    } else {
        base
    }
}

/// The class attribute of the form element, given the record's name in kebab
/// case.
pub open spec fn form_class_with(kebab: Seq<char>) -> Seq<char> {
    kebab + "-form formula-y-form"@
}

/// The name of the update action of the field named `field_name`.
pub open spec fn action_name_of(field_name: Seq<char>) -> Seq<char> {
    action_name_with(cased(field_name, CaseStyle::UpperCamel))
}

/// The label of the field named `field_name`.
pub open spec fn label_of(field_name: Seq<char>) -> Seq<char> {
    cased(field_name, CaseStyle::Title)
}

/// The class name of the field named `field_name`.
pub open spec fn class_name_of(field_name: Seq<char>) -> Seq<char> {
    cased(field_name, CaseStyle::Kebab)
}

/// The class attribute of an element of the field named `field_name`.
pub open spec fn element_class_of(
    field_name: Seq<char>,
    family: KindFamily,
    element: Element,
    required: bool,
) -> Seq<char> {
    element_class_with(class_name_of(field_name), family, element, required)
}

/// The class attribute of the form of the record named `record_name`.
pub open spec fn form_class_of(record_name: Seq<char>) -> Seq<char> {
    form_class_with(class_name_of(record_name))
}

/// Join the action prefix with a field name that is already in upper camel
/// case.
pub fn action_name_from(camel: &str) -> (out: String)
    ensures
        out@ == action_name_with(camel@),
{
    let mut name = "Update".to_owned();
    name.append(camel);
    name
}

/// A field's name in upper camel case: `agree_to_terms` gives
/// `AgreeToTerms`.
pub fn upper_camel(field_name: &str) -> (out: String)
    ensures
        out@ == cased(field_name@, CaseStyle::UpperCamel),
{
    to_case(field_name, CaseStyle::UpperCamel)
}

/// The name of a field's update action: `agree_to_terms` gives
/// `UpdateAgreeToTerms`.
pub fn action_name(field_name: &str) -> (out: String)
    ensures
        out@ == action_name_of(field_name@),
{
    let camel = upper_camel(field_name);
    action_name_from(camel.as_str())
}

/// The label of a field: `agree_to_terms` gives `Agree To Terms`.
pub fn label_text(field_name: &str) -> (out: String)
    ensures
        out@ == label_of(field_name@),
{
    to_case(field_name, CaseStyle::Title)
}

/// The class name of a field: `agree_to_terms` gives `agree-to-terms`.
pub fn class_name(field_name: &str) -> (out: String)
    ensures
        out@ == class_name_of(field_name@),
{
    to_case(field_name, CaseStyle::Kebab)
}

/// Build the class attribute of an element from a field name that is already
/// in kebab case.
pub fn element_class_from(kebab: &str, family: KindFamily, element: Element, required: bool) -> (out:
    String)
    ensures
        out@ == element_class_with(kebab@, family, element, required),
{
    let suffix = match element {
        Element::Label => "-label",
        Element::Input => "-input",
    };
    let token = match family {
        KindFamily::Txt => "txt",
        KindFamily::Checkbox => "checkbox",
    };
    let mut class = kebab.to_owned();
    class.append(suffix);
    class.append(" formula-y-");
    class.append(token);
    class.append(suffix);
    if required {
        class.append(" required");
    }
    class
}

/// The class attribute of an element of a field.
pub fn element_class(field_name: &str, family: KindFamily, element: Element, required: bool) -> (out:
    String)
    ensures
        out@ == element_class_of(field_name@, family, element, required),
{
    let kebab = class_name(field_name);
    element_class_from(kebab.as_str(), family, element, required)
}

/// Build the class attribute of the form element from a record name that is
/// already in kebab case.
pub fn form_class_from(kebab: &str) -> (out: String)
    ensures
        out@ == form_class_with(kebab@),
{
    let mut class = kebab.to_owned();
    class.append("-form formula-y-form");
    class
}

/// The class attribute of the form element of a record: `SignUp` gives
/// `sign-up-form formula-y-form`.
pub fn form_class(record_name: &str) -> (out: String)
    ensures
        out@ == form_class_of(record_name@),
{
    let kebab = class_name(record_name);
    form_class_from(kebab.as_str())
}

} // verus!
