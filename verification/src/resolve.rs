//! The resolution of a configuration: a base and, over it, one layer of
//! overrides after the other, later layers winning field by field.

use vstd::prelude::*;
use crate::customise::{
    all_applicable,
    customised,
    duplicates,
    law_duplicate_kinds_rejected,
    law_valid_options_resolve,
    mode_view,
    rename_mode_of,
    unique_kinds,
    Customisations,
    CustomisationsView,
    Profile,
    RenameMode,
    RenameModeView,
};
use crate::error::{BuildError, DiagnosticView, ErrorKind};
use crate::option::{
    expr_view,
    option_views,
    vis_view,
    Case,
    ConfigOption,
    ConfigOptionView,
    Expr,
    Visibility,
};
use crate::text::text_view;

verus! {

/// A fully resolved configuration.
#[derive(Clone, Debug, PartialEq, Eq)]
pub struct ResolvedConfig {
    pub custom_visibility: Option<Visibility>,
    pub custom_name: Option<String>,
    pub rename_case: Option<Case>,
    pub default_value: Option<Expr>,
    pub trim: bool,
}

/// What a [`ResolvedConfig`] holds, with its texts as sequences of characters.
pub struct ResolvedConfigView {
    pub custom_visibility: Option<Seq<char>>,
    pub custom_name: Option<Seq<char>>,
    pub rename_case: Option<Case>,
    pub default_value: Option<Seq<char>>,
    pub trim: bool,
}

impl View for ResolvedConfig {
    type V = ResolvedConfigView;

    open spec fn view(&self) -> ResolvedConfigView {
        ResolvedConfigView {
            custom_visibility: vis_view(self.custom_visibility),
            custom_name: text_view(self.custom_name),
            rename_case: self.rename_case,
            default_value: expr_view(self.default_value),
            trim: self.trim,
        }
    }
}

impl ResolvedConfigView {
    /// The configuration before any override: nothing set, trimming on.
    pub open spec fn initial() -> ResolvedConfigView {
        ResolvedConfigView {
            custom_visibility: None,
            custom_name: None,
            rename_case: None,
            default_value: None,
            trim: true,
        }
    }

    /// The configuration with the overrides of one layer applied: each
    /// field takes the layer's value where the layer has one.
    pub open spec fn applied(self, layer: CustomisationsView) -> ResolvedConfigView {
        ResolvedConfigView {
            custom_visibility: if layer.custom_vis is Some {
                layer.custom_vis
            } else {
                self.custom_visibility
            },
            custom_name: if layer.custom_name is Some {
                layer.custom_name
            } else {
                self.custom_name
            },
            rename_case: if layer.rename_case is Some {
                layer.rename_case
            } else {
                self.rename_case
            },
            default_value: if layer.default_value is Some {
                layer.default_value
            } else {
                self.default_value
            },
            trim: match layer.trim {
                Some(trim) => trim,
                None => self.trim,
            },
        }
    }

    /// The rename mode of the configuration: the custom name wherever there
    /// is one, else the case rule.
    pub open spec fn rename_mode(self) -> Option<RenameModeView> {
        rename_mode_of(self.custom_name, self.rename_case)
    }
}

/// The views of a sequence of layers.
pub open spec fn layer_views(layers: Seq<Vec<ConfigOption>>) -> Seq<Seq<ConfigOptionView>> {
    layers.map_values(|l: Vec<ConfigOption>| option_views(l@))
}

/// The configuration after the first `n` layers, or the error of the first of
/// them that does not resolve.
pub open spec fn resolved(
    base: ResolvedConfigView,
    layers: Seq<Seq<ConfigOptionView>>,
    profile: Profile,
    n: int,
) -> Result<ResolvedConfigView, Seq<DiagnosticView>>
    decreases n,
{
    if n <= 0 || n > layers.len() {
        Ok(base)
    } else {
        match resolved(base, layers, profile, n - 1) {
            Err(e) => Err(e),
            Ok(config) => match customised(layers[n - 1], profile) {
                Err(e) => Err(e),
                Ok(layer) => Ok(config.applied(layer)),
            },
        }
    }
}

impl Default for ResolvedConfig {
    fn default() -> (r: ResolvedConfig)
        ensures
            r@ == ResolvedConfigView::initial(),
    {
        ResolvedConfig {
            custom_visibility: None,
            custom_name: None,
            rename_case: None,
            default_value: None,
            trim: true,
        }
    }
}

impl ResolvedConfig {
    /// Applies the overrides of one layer: each field takes the layer's
    /// value where the layer has one.
    pub fn apply(&mut self, layer: Customisations)
        ensures
            final(self)@ == old(self)@.applied(layer@),
    {
        let Customisations { custom_vis, custom_name, rename_case, default_value, trim } = layer;
        if custom_vis.is_some() {
            self.custom_visibility = custom_vis;
        }
        if custom_name.is_some() {
            self.custom_name = custom_name;
        }
        if rename_case.is_some() {
            self.rename_case = rename_case;
        }
        if default_value.is_some() {
            self.default_value = default_value;
        }
        match trim {
            Some(trim) => {
                self.trim = trim;
            },
            None => {},
        }
    }

    /// The rename mode of the configuration: the custom name wherever there
    /// is one, else the case rule.
    pub fn rename_mode(&self) -> (r: Option<RenameMode>)
        ensures
            mode_view(r) == self@.rename_mode(),
    {
        match &self.custom_name {
            Some(name) => Some(RenameMode::Custom(name.clone())),
            None => match self.rename_case {
                Some(case) => Some(RenameMode::ToCase(case)),
                None => None,
            },
        }
    }
}

proof fn lemma_resolved_error_stays(
    base: ResolvedConfigView,
    layers: Seq<Seq<ConfigOptionView>>,
    profile: Profile,
    n: int,
    m: int,
)
    requires
        0 <= n <= m <= layers.len(),
        resolved(base, layers, profile, n) is Err,
    ensures
        resolved(base, layers, profile, m) == resolved(base, layers, profile, n),
    decreases m - n,
{
    if n < m {
        lemma_resolved_error_stays(base, layers, profile, n, m - 1);
    }
}

/// Resolves a configuration: starts from `base` and applies the layers in
/// order, later layers winning field by field.
///
/// Each layer is an option list; it must hold no kind twice and only kinds
/// that the profile takes. The first layer that does not stops the
/// resolution with its error.
pub fn resolve(base: ResolvedConfig, layers: &Vec<Vec<ConfigOption>>, profile: &Profile) -> (r:
    Result<ResolvedConfig, BuildError>)
    ensures
        match resolved(base@, layer_views(layers@), *profile, layers.len() as int) {
            Ok(config) => r matches Ok(c) && c@ == config,
            Err(e) => r matches Err(err) && err@ == e,
        },
{
    let ghost all = layer_views(layers@);
    let ghost start = base@;
    let mut config = base;
    let mut i: usize = 0;
    while i < layers.len()
        invariant
            i <= layers.len(),
            all == layer_views(layers@),
            start == base@,
            resolved(start, all, *profile, i as int) == Ok::<
                ResolvedConfigView,
                Seq<DiagnosticView>,
            >(config@),
        decreases layers.len() - i,
    {
        assert(all[i as int] == option_views(layers@[i as int]@));
        match Customisations::resolve(&layers[i], profile) {
            Err(e) => {
                proof {
                    assert(resolved(start, all, *profile, i + 1) == Err::<
                        ResolvedConfigView,
                        Seq<DiagnosticView>,
                    >(e@));
                    lemma_resolved_error_stays(start, all, *profile, i + 1, layers.len() as int);
                }
                return Err(e);
            },
            Ok(layer) => {
                config.apply(layer);
            },
        }
        i += 1;
    }
    Ok(config)
}

/// Layers that each hold no kind twice and only applicable kinds resolve.
pub proof fn law_valid_layers_resolve(
    base: ResolvedConfigView,
    layers: Seq<Seq<ConfigOptionView>>,
    profile: Profile,
    n: int,
)
    requires
        0 <= n <= layers.len(),
        forall|k: int|
            0 <= k < n ==> unique_kinds(#[trigger] layers[k]) && all_applicable(layers[k], profile),
    ensures
        resolved(base, layers, profile, n) is Ok,
    decreases n,
{
    if n > 0 {
        law_valid_layers_resolve(base, layers, profile, n - 1);
        law_valid_options_resolve(layers[n - 1], profile);
    }
}

/// A layer with two options of one kind, after layers that resolve, makes
/// the resolution fail with the error of that layer's duplicates.
pub proof fn law_duplicate_kinds_fail_resolution(
    base: ResolvedConfigView,
    layers: Seq<Seq<ConfigOptionView>>,
    profile: Profile,
    k: int,
    i: int,
    j: int,
)
    requires
        0 <= k < layers.len(),
        resolved(base, layers, profile, k) is Ok,
        0 <= i < j < layers[k].len(),
        layers[k][i].data.kind() == layers[k][j].data.kind(),
    ensures
        resolved(base, layers, profile, layers.len() as int) == Err::<
            ResolvedConfigView,
            Seq<DiagnosticView>,
        >(duplicates(layers[k])),
        duplicates(layers[k])[0].kind == ErrorKind::DuplicateOption,
{
    law_duplicate_kinds_rejected(layers[k], profile, i, j);
    lemma_resolved_error_stays(base, layers, profile, k + 1, layers.len() as int);
}

/// Across layers, `rename` wins over `rename_all` in either order: a custom
/// name in the layer wins over any case rule, and a custom name set before
/// stays where the layer brings only a case rule.
pub proof fn law_rename_wins_across_layers(config: ResolvedConfigView, layer: CustomisationsView)
    ensures
        layer.custom_name matches Some(name) ==> config.applied(layer).rename_mode() == Some(
            RenameModeView::Custom(name),
        ),
        layer.custom_name is None && config.custom_name is Some ==> config.applied(
            layer,
        ).rename_mode() == Some(RenameModeView::Custom(config.custom_name->0)),
{
}

} // verus!
