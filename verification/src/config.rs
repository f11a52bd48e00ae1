//! The configurations of the consumers: what each of them can have
//! customised, with trimming on and nothing else set to begin with.

use vstd::prelude::*;
use crate::customise::{mode_view, Customisations, CustomisationsView, RenameMode, RenameModeView};
use crate::option::{expr_view, vis_view, Expr, Visibility};
use crate::text::text_view;

verus! {

/// A copy of an optional expression.
pub fn copy_expr(e: &Option<Expr>) -> (r: Option<Expr>)
    ensures
        expr_view(r) == expr_view(*e),
{
    match e {
        Some(e) => Some(Expr { text: e.text.clone() }),
        None => None,
    }
}

/// A copy of an optional rename mode.
pub fn copy_mode(m: &Option<RenameMode>) -> (r: Option<RenameMode>)
    ensures
        mode_view(r) == mode_view(*m),
{
    match m {
        Some(RenameMode::ToCase(case)) => Some(RenameMode::ToCase(*case)),
        Some(RenameMode::Custom(name)) => Some(RenameMode::Custom(name.clone())),
        None => None,
    }
}

/// Configurable options for the attribute macro.
#[derive(Clone, Debug, PartialEq, Eq)]
pub struct AttrConfig {
    pub custom_vis: Option<Visibility>,
    pub custom_name: Option<String>,
    pub default_value: Option<Expr>,
    pub trim: bool,
}

/// What a [`AttrConfig`] holds, with its texts as sequences of characters.
pub struct AttrConfigView {
    pub custom_vis: Option<Seq<char>>,
    pub custom_name: Option<Seq<char>>,
    pub default_value: Option<Seq<char>>,
    pub trim: bool,
}

impl View for AttrConfig {
    type V = AttrConfigView;

    open spec fn view(&self) -> AttrConfigView {
        AttrConfigView {
            custom_vis: vis_view(self.custom_vis),
            custom_name: text_view(self.custom_name),
            default_value: expr_view(self.default_value),
            trim: self.trim,
        }
    }
}

impl AttrConfigView {
    /// The configuration before any customisation.
    pub open spec fn initial() -> AttrConfigView {
        AttrConfigView { custom_vis: None, custom_name: None, default_value: None, trim: true }
    }

    /// The configuration with customisations applied: each field takes the
    /// customised value where there is one.
    pub open spec fn with(self, c: CustomisationsView) -> AttrConfigView {
        AttrConfigView {
            custom_vis: if c.custom_vis is Some {
                c.custom_vis
            } else {
                self.custom_vis
            },
            custom_name: if c.custom_name is Some {
                c.custom_name
            } else {
                self.custom_name
            },
            default_value: if c.default_value is Some {
                c.default_value
            } else {
                self.default_value
            },
            trim: match c.trim {
                Some(trim) => trim,
                None => self.trim,
            },
        }
    }
}

impl Default for AttrConfig {
    fn default() -> (r: AttrConfig)
        ensures
            r@ == AttrConfigView::initial(),
    {
        AttrConfig { custom_vis: None, custom_name: None, default_value: None, trim: true }
    }
}

impl AttrConfig {
    /// Applies customisations: each field takes the customised value where
    /// there is one.
    pub fn apply_customisations(&mut self, customisations: Customisations)
        ensures
            final(self)@ == old(self)@.with(customisations@),
    {
        let Customisations { custom_vis, custom_name, rename_case: _, default_value, trim } =
            customisations;
        if custom_vis.is_some() {
            self.custom_vis = custom_vis;
        }
        if custom_name.is_some() {
            self.custom_name = custom_name;
        }
        if default_value.is_some() {
            self.default_value = default_value;
        }
        match trim {
            Some(trim) => {
                self.trim = trim;
            },
            None => {},
        }
    }

    /// Return a new instance of this config with customisations applied.
    pub fn with_customisations(self, customisations: Customisations) -> (r: AttrConfig)
        ensures
            r@ == self@.with(customisations@),
    {
        let mut new = self;
        new.apply_customisations(customisations);
        new
    }
}

/// Configurable options for the derive macros on a type or on a variant.
#[derive(Clone, Debug, PartialEq, Eq)]
pub struct DeriveConfig {
    pub default_value: Option<Expr>,
    pub trim: bool,
}

/// What a [`DeriveConfig`] holds, with its texts as sequences of characters.
pub struct DeriveConfigView {
    pub default_value: Option<Seq<char>>,
    pub trim: bool,
}

impl View for DeriveConfig {
    type V = DeriveConfigView;

    open spec fn view(&self) -> DeriveConfigView {
        DeriveConfigView { default_value: expr_view(self.default_value), trim: self.trim }
    }
}

impl DeriveConfigView {
    /// The configuration before any customisation.
    pub open spec fn initial() -> DeriveConfigView {
        DeriveConfigView { default_value: None, trim: true }
    }

    /// The configuration with customisations applied.
    pub open spec fn with(self, c: CustomisationsView) -> DeriveConfigView {
        DeriveConfigView {
            default_value: if c.default_value is Some {
                c.default_value
            } else {
                self.default_value
            },
            trim: match c.trim {
                Some(trim) => trim,
                None => self.trim,
            },
        }
    }
}

impl Default for DeriveConfig {
    fn default() -> (r: DeriveConfig)
        ensures
            r@ == DeriveConfigView::initial(),
    {
        DeriveConfig { default_value: None, trim: true }
    }
}

impl DeriveConfig {
    /// Applies customisations: each field takes the customised value where
    /// there is one.
    pub fn apply_customisations(&mut self, customisations: Customisations)
        ensures
            final(self)@ == old(self)@.with(customisations@),
    {
        let Customisations {
            custom_vis: _,
            custom_name: _,
            rename_case: _,
            default_value,
            trim,
        } = customisations;
        if default_value.is_some() {
            self.default_value = default_value;
        }
        match trim {
            Some(trim) => {
                self.trim = trim;
            },
            None => {},
        }
    }

    /// Return a new instance of this config with customisations applied.
    pub fn with_customisations(&self, customisations: Customisations) -> (r: DeriveConfig)
        ensures
            r@ == self@.with(customisations@),
    {
        let mut new = DeriveConfig {
            default_value: copy_expr(&self.default_value),
            trim: self.trim,
        };
        new.apply_customisations(customisations);
        new
    }
}

/// Configurable options for each field of a type whose fields are
/// documented.
#[derive(Clone, Debug, PartialEq, Eq)]
pub struct DeriveFieldsConfig {
    pub rename_mode: Option<RenameMode>,
    pub default_value: Option<Expr>,
    pub trim: bool,
}

/// What a [`DeriveFieldsConfig`] holds, with its texts as sequences of characters.
pub struct DeriveFieldsConfigView {
    pub rename_mode: Option<RenameModeView>,
    pub default_value: Option<Seq<char>>,
    pub trim: bool,
}

impl View for DeriveFieldsConfig {
    type V = DeriveFieldsConfigView;

    open spec fn view(&self) -> DeriveFieldsConfigView {
        DeriveFieldsConfigView {
            rename_mode: mode_view(self.rename_mode),
            default_value: expr_view(self.default_value),
            trim: self.trim,
        }
    }
}

impl DeriveFieldsConfigView {
    /// The configuration before any customisation.
    pub open spec fn initial() -> DeriveFieldsConfigView {
        DeriveFieldsConfigView { rename_mode: None, default_value: None, trim: true }
    }

    /// The rename mode after customisations: their custom name where they
    /// have one; else the custom name that is set already; only then their
    /// case rule, and without any of these what was set before. So a custom
    /// name outranks a case rule, whichever of the two comes first.
    pub open spec fn renamed(self, c: CustomisationsView) -> Option<RenameModeView> {
        match c.custom_name {
            Some(name) => Some(RenameModeView::Custom(name)),
            None => match self.rename_mode {
                Some(RenameModeView::Custom(name)) => Some(RenameModeView::Custom(name)),
                _ => match c.rename_case {
                    Some(case) => Some(RenameModeView::ToCase(case)),
                    None => self.rename_mode,
                },
            },
        }
    }

    /// The configuration with customisations applied: the default and the
    /// trimming take the customised value where there is one, and the rename
    /// mode is as [`renamed`](Self::renamed) says.
    pub open spec fn with(self, c: CustomisationsView) -> DeriveFieldsConfigView {
        DeriveFieldsConfigView {
            rename_mode: self.renamed(c),
            default_value: if c.default_value is Some {
                c.default_value
            } else {
                self.default_value
            },
            trim: match c.trim {
                Some(trim) => trim,
                None => self.trim,
            },
        }
    }
}

impl Default for DeriveFieldsConfig {
    fn default() -> (r: DeriveFieldsConfig)
        ensures
            r@ == DeriveFieldsConfigView::initial(),
    {
        DeriveFieldsConfig { rename_mode: None, default_value: None, trim: true }
    }
}

impl DeriveFieldsConfig {
    /// A copy of the configuration.
    pub fn duplicate(&self) -> (r: DeriveFieldsConfig)
        ensures
            r@ == self@,
    {
        DeriveFieldsConfig {
            rename_mode: copy_mode(&self.rename_mode),
            default_value: copy_expr(&self.default_value),
            trim: self.trim,
        }
    }

    /// Applies customisations: the default and the trimming take the
    /// customised value where there is one. A custom name among the
    /// customisations becomes the rename mode; a case rule among them does
    /// so only where no custom name is set.
    pub fn apply_customisations(&mut self, customisations: Customisations)
        ensures
            final(self)@ == old(self)@.with(customisations@),
    {
        let Customisations { custom_vis: _, custom_name, rename_case, default_value, trim } =
            customisations;
        match custom_name {
            Some(name) => {
                self.rename_mode = Some(RenameMode::Custom(name));
            },
            None => {
                let named = match &self.rename_mode {
                    Some(RenameMode::Custom(_)) => true,
                    _ => false,
                };
                match rename_case {
                    Some(case) => {
                        if !named {
                            self.rename_mode = Some(RenameMode::ToCase(case));
                        }
                    },
                    None => {},
                }
            },
        }
        if default_value.is_some() {
            self.default_value = default_value;
        }
        match trim {
            Some(trim) => {
                self.trim = trim;
            },
            None => {},
        }
    }

    /// Return a new instance of this config with the customisations of the
    /// type applied.
    pub fn with_base_customisations(&self, customisations: Customisations) -> (r:
        DeriveFieldsConfig)
        ensures
            r@ == self@.with(customisations@),
    {
        let mut new = self.duplicate();
        new.apply_customisations(customisations);
        new
    }

    /// Return a new instance of this config with the customisations of a
    /// field applied.
    pub fn with_field_customisations(&self, customisations: Customisations) -> (r:
        DeriveFieldsConfig)
        ensures
            r@ == self@.with(customisations@),
    {
        let mut new = self.duplicate();
        new.apply_customisations(customisations);
        new
    }
}

/// A custom name outranks a case rule in either order of application:
/// customisations with a custom name give that name whatever case rule is
/// set, and a custom name that is set stays under customisations that bring
/// only a case rule.
pub proof fn law_custom_name_outranks_case_rule(
    config: DeriveFieldsConfigView,
    c: CustomisationsView,
)
    ensures
        c.custom_name matches Some(name) ==> config.with(c).rename_mode == Some(
            RenameModeView::Custom(name),
        ),
        c.custom_name is None && config.rename_mode is Some && config.rename_mode->0 is Custom
            ==> config.with(c).rename_mode == config.rename_mode,
{
}

} // verus!
