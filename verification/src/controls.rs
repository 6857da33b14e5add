//! The controls that a step of a wizard has.

use vstd::prelude::*;

use crate::drafts::WizardControl;

verus! {

/// What kind of control it is, as far as the form has to know.
#[derive(Debug, Clone, Copy, PartialEq, Eq, Structural)]
pub enum ControlKind {
    Button,
    TextField,
    /// A text field with a completion popup.
    PathField { completing: bool },
    Checkbox,
    ChoiceList { len: usize, selected: usize },
    ComboBox { len: usize, selected: usize, expanded: bool },
}

/// A control that a form has, and whether it can be used.
#[derive(Debug, Clone, Copy, PartialEq, Eq, Structural)]
pub struct Declaration {
    pub control: WizardControl,
    pub kind: ControlKind,
    pub enabled: bool,
}

pub open spec fn declared(control: WizardControl, kind: ControlKind, enabled: bool) -> Declaration {
    Declaration { control, kind, enabled }
}

pub open spec fn button(control: WizardControl, enabled: bool) -> Declaration {
    Declaration { control, kind: ControlKind::Button, enabled }
}

/// The list with the control at its end, where it is wanted.
pub open spec fn with_control(list: Seq<Declaration>, wanted: bool, declaration: Declaration) -> Seq<
    Declaration,
> {
    if wanted {
        list.push(declaration)
    } else {
        list
    }
}

pub fn declare(list: &mut Vec<Declaration>, control: WizardControl, kind: ControlKind, enabled: bool)
    ensures
        final(list)@ == old(list)@.push(declared(control, kind, enabled)),
{
    list.push(Declaration { control, kind, enabled });
}

pub fn declare_button(list: &mut Vec<Declaration>, control: WizardControl, enabled: bool)
    ensures
        final(list)@ == old(list)@.push(button(control, enabled)),
{
    list.push(Declaration { control, kind: ControlKind::Button, enabled });
}

pub fn declare_where(
    list: &mut Vec<Declaration>,
    wanted: bool,
    control: WizardControl,
    kind: ControlKind,
    enabled: bool,
)
    ensures
        final(list)@ == with_control(old(list)@, wanted, declared(control, kind, enabled)),
{
    if wanted {
        list.push(Declaration { control, kind, enabled });
    }
}

pub fn declare_button_where(
    list: &mut Vec<Declaration>,
    wanted: bool,
    control: WizardControl,
    enabled: bool,
)
    ensures
        final(list)@ == with_control(old(list)@, wanted, button(control, enabled)),
{
    if wanted {
        list.push(Declaration { control, kind: ControlKind::Button, enabled });
    }
}

} // verus!
