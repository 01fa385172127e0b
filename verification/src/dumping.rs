//! Flattening of configuration objects into a descriptive parameter map.
//!
//! A dumped configuration is a list of `(path, parameter)` entries, the path
//! being dot-separated field names. An optional parameter or sub-config gets
//! an extra `<path>.#is_none` flag entry that records whether it was absent.
//! A combined map may also hold pointer entries, which carry only a
//! description and the path of the target parameter they point to.
//!
//! The entry lists produced here have map semantics: when two entries share a
//! path, the later one wins. `entry_map_of` is that reading, and the contracts
//! below speak through it.

use vstd::prelude::*;
use vstd::string::StringExecFns;

verus! {

/// The dot-separated path of one flattened parameter.
pub type ParamPath = String;

/// The value of one flattened parameter: either a plain boolean (used by the
/// `#is_none` flag entries) or an already-serialized value, carried opaquely
/// as its serialized text.
#[derive(Debug, Clone, PartialEq, Eq)]
pub enum ParamValue {
    Bool(bool),
    Json(String),
}

/// A flattened parameter: its description and its value.
#[derive(Debug, Clone, PartialEq, Eq)]
pub struct SerializedParam {
    pub description: String,
    pub value: ParamValue,
}

/// A pointer entry of a combined map: its description and the path of the
/// target parameter it points to.
#[derive(Debug, Clone, PartialEq, Eq)]
pub struct PointerParam {
    pub description: String,
    pub pointer_target: ParamPath,
}

/// One entry of a combined map: a plain parameter or a pointer.
#[derive(Debug, Clone, PartialEq, Eq)]
pub enum CombinedParam {
    Value(SerializedParam),
    Pointer(PointerParam),
}

/// Errors of the configuration utilities.
#[derive(Debug, Clone, PartialEq, Eq)]
pub enum ConfigError {
    /// A param was named as pointing at a target, but the map holds no plain
    /// parameter under its path to take the description from.
    PointerSourceNotFound { pointing_param: ParamPath },
}

/// Conversion of a configuration object to its flattened parameter entries.
/// Implementors list every parameter under the field name it is loaded from.
pub trait SerializeConfig {
    /// The flattened entries of this configuration.
    fn dump(&self) -> Vec<(ParamPath, SerializedParam)>;
}

/// The map an entry list stands for: later entries win.
pub open spec fn entry_map_of<T>(entries: Seq<(ParamPath, T)>) -> Map<Seq<char>, T>
    decreases entries.len(),
{
    if entries.len() == 0 {
        Map::empty()
    } else {
        entry_map_of(entries.drop_last()).insert(entries.last().0@, entries.last().1)
    }
}

/// An exact copy of a parameter value.
fn clone_param_value(value: &ParamValue) -> (r: ParamValue)
    ensures
        r == *value,
{
    match value {
        ParamValue::Bool(b) => ParamValue::Bool(*b),
        ParamValue::Json(s) => ParamValue::Json(s.clone()),
    }
}

/// An exact copy of a flattened parameter.
fn clone_serialized_param(param: &SerializedParam) -> (r: SerializedParam)
    ensures
        r == *param,
{
    SerializedParam { description: param.description.clone(), value: clone_param_value(&param.value) }
}

/// Serializes a single param of a config, under its own name.
pub fn ser_param(name: &str, value: ParamValue, description: &str) -> (r: (
    ParamPath,
    SerializedParam,
))
    ensures
        r.0@ == name@,
        r.1.description@ == description@,
        r.1.value == value,
{
    (name.to_owned(), SerializedParam { description: description.to_owned(), value })
}

/// Serializes the `#is_none` flag entry of the optional param or sub-config
/// named `name`.
pub fn ser_is_param_none(name: &str, is_none: bool) -> (r: (ParamPath, SerializedParam))
    ensures
        r.0@ == name@ + ".#is_none"@,
        r.1.description@ == "Flag for an optional field"@,
        r.1.value == ParamValue::Bool(is_none),
{
    let mut path = name.to_owned();
    path.append(".#is_none");
    (
        path,
        SerializedParam {
            description: "Flag for an optional field".to_owned(),
            value: ParamValue::Bool(is_none),
        },
    )
}

/// Prepends `sub_config_name` and a dot to the path of each entry of
/// `sub_config_dump`, so a sub-config's entries sit under the field it is
/// loaded from. Values and order are kept.
pub fn append_sub_config_name(
    sub_config_dump: Vec<(ParamPath, SerializedParam)>,
    sub_config_name: &str,
) -> (r: Vec<(ParamPath, SerializedParam)>)
    ensures
        r@.len() == sub_config_dump@.len(),
        forall|i: int|
            0 <= i < r@.len() ==> r@[i].0@ == sub_config_name@ + "."@ + sub_config_dump@[i].0@
                && r@[i].1 == sub_config_dump@[i].1,
{
    let mut result: Vec<(ParamPath, SerializedParam)> = Vec::new();
    let mut i: usize = 0;
    while i < sub_config_dump.len()
        invariant
            i <= sub_config_dump@.len(),
            result@.len() == i as int,
            forall|j: int|
                0 <= j < i as int ==> result@[j].0@ == sub_config_name@ + "."@
                    + sub_config_dump@[j].0@ && result@[j].1 == sub_config_dump@[j].1,
        decreases sub_config_dump@.len() - i,
    {
        let entry = &sub_config_dump[i];
        let mut path = sub_config_name.to_owned();
        path.append(".");
        path.append(entry.0.as_str());
        result.push((path, clone_serialized_param(&entry.1)));
        i += 1;
    }
    result
}

/// Serializes an optional param as two entries: the `#is_none` flag, then the
/// param itself, holding the param's value when present and `default_value`
/// when absent.
pub fn ser_optional_param(
    optional_param: &Option<ParamValue>,
    default_value: ParamValue,
    name: &str,
    description: &str,
) -> (r: Vec<(ParamPath, SerializedParam)>)
    ensures
        r@.len() == 2,
        r@[0].0@ == name@ + ".#is_none"@,
        r@[0].1.description@ == "Flag for an optional field"@,
        r@[0].1.value == ParamValue::Bool(optional_param is None),
        r@[1].0@ == name@,
        r@[1].1.description@ == description@,
        r@[1].1.value == (match optional_param {
            Some(param) => *param,
            None => default_value,
        }),
{
    let value = match optional_param {
        Some(param) => clone_param_value(param),
        None => default_value,
    };
    let mut result: Vec<(ParamPath, SerializedParam)> = Vec::new();
    result.push(ser_is_param_none(name, optional_param.is_none()));
    result.push(ser_param(name, value, description));
    result
}

/// Serializes an optional sub-config: the `#is_none` flag first, then — under
/// `name` — the entries of the sub-config itself when present, or of its
/// default value when absent.
pub fn ser_optional_sub_config<T: SerializeConfig + Default>(
    optional_config: &Option<T>,
    name: &str,
) -> (r: Vec<(ParamPath, SerializedParam)>)
    ensures
        r@.len() >= 1,
        r@[0].0@ == name@ + ".#is_none"@,
        r@[0].1.description@ == "Flag for an optional field"@,
        r@[0].1.value == ParamValue::Bool(optional_config is None),
        forall|i: int|
            1 <= i < r@.len() ==> (r@[i].0@.len() >= name@.len() + 1 && r@[i].0@.subrange(
                0,
                name@.len() + 1 as int,
            ) == name@ + "."@),
{
    let dumped = match optional_config {
        Some(config) => config.dump(),
        None => T::default().dump(),
    };
    let ghost dumped_snap = dumped@;
    let mut prefixed = append_sub_config_name(dumped, name);
    let ghost prefixed_snap = prefixed@;
    let mut result: Vec<(ParamPath, SerializedParam)> = Vec::new();
    result.push(ser_is_param_none(name, optional_config.is_none()));
    let ghost base_snap = result@;
    result.append(&mut prefixed);
    proof {
        reveal_strlit(".");
        assert(result@ =~= base_snap + prefixed_snap);
        assert forall|i: int| 1 <= i < result@.len() implies (result@[i].0@.len() >= name@.len() + 1
            && result@[i].0@.subrange(0, name@.len() + 1 as int) == name@ + "."@) by {
            assert(result@[i] == prefixed_snap[i - 1]);
            assert(prefixed_snap[i - 1].0@ == name@ + "."@ + dumped_snap[i - 1].0@);
            assert(result@[i].0@.subrange(0, name@.len() + 1 as int) =~= name@ + "."@);
        }
    }
    result
}

/// The map a dumped config stands for: every entry a plain parameter.
pub open spec fn config_entry_map(config_map: Seq<(ParamPath, SerializedParam)>) -> Map<
    Seq<char>,
    CombinedParam,
>
    decreases config_map.len(),
{
    if config_map.len() == 0 {
        Map::empty()
    } else {
        config_entry_map(config_map.drop_last()).insert(
            config_map.last().0@,
            CombinedParam::Value(config_map.last().1),
        )
    }
}

/// Redirects each path of `pointing` in turn: the plain parameter under it is
/// replaced by a pointer to `target_path` that keeps its description. Fails
/// with `PointerSourceNotFound` at the first path that does not hold a plain
/// parameter.
pub open spec fn apply_pointing(
    m: Map<Seq<char>, CombinedParam>,
    target_path: ParamPath,
    pointing: Seq<ParamPath>,
) -> Result<Map<Seq<char>, CombinedParam>, ConfigError>
    decreases pointing.len(),
{
    if pointing.len() == 0 {
        Ok(m)
    } else {
        let p = pointing[0];
        if m.contains_key(p@) && m[p@] is Value {
            apply_pointing(
                m.insert(
                    p@,
                    CombinedParam::Pointer(
                        PointerParam {
                            description: m[p@]->Value_0.description,
                            pointer_target: target_path,
                        },
                    ),
                ),
                target_path,
                pointing.drop_first(),
            )
        } else {
            Err(ConfigError::PointerSourceNotFound { pointing_param: p })
        }
    }
}

/// Applies the pointer groups in order: each group first adds its target
/// param, then redirects each of its pointing params to the target.
pub open spec fn apply_pointer_groups(
    m: Map<Seq<char>, CombinedParam>,
    pointers: Seq<((ParamPath, SerializedParam), Vec<ParamPath>)>,
) -> Result<Map<Seq<char>, CombinedParam>, ConfigError>
    decreases pointers.len(),
{
    if pointers.len() == 0 {
        Ok(m)
    } else {
        let group = pointers[0];
        let with_target = m.insert(group.0.0@, CombinedParam::Value(group.0.1));
        match apply_pointing(with_target, group.0.0, group.1@) {
            Ok(m2) => apply_pointer_groups(m2, pointers.drop_first()),
            Err(e) => Err(e),
        }
    }
}

/// The combined map: the dumped config read as a map, then every pointer
/// group applied in order.
pub open spec fn combine_spec(
    config_map: Seq<(ParamPath, SerializedParam)>,
    pointers: Seq<((ParamPath, SerializedParam), Vec<ParamPath>)>,
) -> Result<Map<Seq<char>, CombinedParam>, ConfigError> {
    apply_pointer_groups(config_entry_map(config_map), pointers)
}

/// Appending one entry to a list inserts its binding into the list's map.
proof fn lemma_entry_map_push<T>(entries: Seq<(ParamPath, T)>, entry: (ParamPath, T))
    ensures
        entry_map_of(entries.push(entry)) == entry_map_of(entries).insert(entry.0@, entry.1),
{
    assert(entries.push(entry).drop_last() =~= entries);
}

/// One step of reading an entry list as a map, front to back.
proof fn lemma_entry_map_take_step<T>(entries: Seq<(ParamPath, T)>, i: int)
    requires
        0 < i <= entries.len(),
    ensures
        entry_map_of(entries.take(i)) == entry_map_of(entries.take(i - 1)).insert(
            entries[i - 1].0@,
            entries[i - 1].1,
        ),
{
    assert(entries.take(i).drop_last() =~= entries.take(i - 1));
    assert(entries.take(i).last() == entries[i - 1]);
}

/// One step of reading a dumped config as a map, front to back.
proof fn lemma_config_map_take_step(config_map: Seq<(ParamPath, SerializedParam)>, i: int)
    requires
        0 < i <= config_map.len(),
    ensures
        config_entry_map(config_map.take(i)) == config_entry_map(config_map.take(i - 1)).insert(
            config_map[i - 1].0@,
            CombinedParam::Value(config_map[i - 1].1),
        ),
{
    assert(config_map.take(i).drop_last() =~= config_map.take(i - 1));
    assert(config_map.take(i).last() == config_map[i - 1]);
}

/// Looks up `param_path` in the map the entry list stands for, and hands back
/// the plain parameter under it; fails with `PointerSourceNotFound` when the
/// map holds nothing, or a pointer, under that path.
fn get_serialized_param(
    param_path: &ParamPath,
    entries: &Vec<(ParamPath, CombinedParam)>,
) -> (r: Result<SerializedParam, ConfigError>)
    ensures
        match r {
            Ok(sp) => entry_map_of(entries@).contains_key(param_path@) && entry_map_of(
                entries@,
            ).spec_index(param_path@) == CombinedParam::Value(sp),
            Err(e) => (!entry_map_of(entries@).contains_key(param_path@) || !(entry_map_of(
                entries@,
            ).spec_index(param_path@) is Value)) && e == (ConfigError::PointerSourceNotFound {
                pointing_param: *param_path,
            }),
        },
{
    let ghost full = entry_map_of(entries@);
    let mut i: usize = entries.len();
    proof {
        assert(entries@.take(i as int) =~= entries@);
    }
    while i > 0
        invariant
            i <= entries@.len(),
            full == entry_map_of(entries@),
            full.contains_key(param_path@) ==> entry_map_of(entries@.take(i as int)).contains_key(
                param_path@,
            ) && entry_map_of(entries@.take(i as int)).spec_index(param_path@) == full.spec_index(
                param_path@,
            ),
            !full.contains_key(param_path@) ==> !entry_map_of(
                entries@.take(i as int),
            ).contains_key(param_path@),
        decreases i,
    {
        let idx = i - 1;
        proof {
            lemma_entry_map_take_step(entries@, i as int);
        }
        if entries[idx].0 == *param_path {
            match &entries[idx].1 {
                CombinedParam::Value(sp) => {
                    return Ok(clone_serialized_param(sp));
                },
                CombinedParam::Pointer(_) => {
                    return Err(
                        ConfigError::PointerSourceNotFound { pointing_param: param_path.clone() },
                    );
                },
            }
        }
        i = idx;
    }
    proof {
        assert(entries@.take(0) =~= Seq::<(ParamPath, CombinedParam)>::empty());
    }
    Err(ConfigError::PointerSourceNotFound { pointing_param: param_path.clone() })
}

/// Builds the combined map of a dumped config and its pointer groups: adds
/// each group's target param, and replaces each of the group's pointing
/// params by a pointer entry that keeps the param's description and names the
/// target's path. Fails with `PointerSourceNotFound` exactly when a pointing
/// param is looked up while the map holds no plain parameter under its path.
pub fn combine_config_map_and_pointers(
    config_map: Vec<(ParamPath, SerializedParam)>,
    pointers: &Vec<((ParamPath, SerializedParam), Vec<ParamPath>)>,
) -> (r: Result<Vec<(ParamPath, CombinedParam)>, ConfigError>)
    ensures
        match r {
            Ok(entries) => combine_spec(config_map@, pointers@) == Ok::<
                Map<Seq<char>, CombinedParam>,
                ConfigError,
            >(entry_map_of(entries@)),
            Err(e) => combine_spec(config_map@, pointers@) == Err::<
                Map<Seq<char>, CombinedParam>,
                ConfigError,
            >(e),
        },
{
    let mut entries: Vec<(ParamPath, CombinedParam)> = Vec::new();
    let mut i: usize = 0;
    proof {
        assert(config_map@.take(0) =~= Seq::<(ParamPath, SerializedParam)>::empty());
    }
    while i < config_map.len()
        invariant
            i <= config_map@.len(),
            entry_map_of(entries@) == config_entry_map(config_map@.take(i as int)),
        decreases config_map@.len() - i,
    {
        let entry = &config_map[i];
        let ghost entries_snap = entries@;
        entries.push((entry.0.clone(), CombinedParam::Value(clone_serialized_param(&entry.1))));
        proof {
            lemma_entry_map_push(entries_snap, entries@.last());
            lemma_config_map_take_step(config_map@, i + 1);
        }
        i += 1;
    }
    proof {
        assert(config_map@.take(config_map@.len() as int) =~= config_map@);
        assert(pointers@.skip(0) =~= pointers@);
    }
    let mut gi: usize = 0;
    while gi < pointers.len()
        invariant
            gi <= pointers@.len(),
            apply_pointer_groups(entry_map_of(entries@), pointers@.skip(gi as int))
                == combine_spec(config_map@, pointers@),
        decreases pointers@.len() - gi,
    {
        let group = &pointers[gi];
        proof {
            assert(pointers@.skip(gi as int)[0] == pointers@[gi as int]);
            assert(pointers@.skip(gi as int).drop_first() =~= pointers@.skip(gi as int + 1));
            assert(group.1@.skip(0) =~= group.1@);
        }
        let ghost entries_snap = entries@;
        entries.push((group.0.0.clone(), CombinedParam::Value(clone_serialized_param(&group.0.1))));
        proof {
            lemma_entry_map_push(entries_snap, entries@.last());
        }
        let mut pi: usize = 0;
        while pi < group.1.len()
            invariant
                pi <= group.1@.len(),
                *group == pointers@[gi as int],
                gi < pointers@.len(),
                (match apply_pointing(
                    entry_map_of(entries@),
                    pointers@[gi as int].0.0,
                    group.1@.skip(pi as int),
                ) {
                    Ok(m2) => apply_pointer_groups(m2, pointers@.skip(gi as int + 1)),
                    Err(e) => Err(e),
                }) == combine_spec(config_map@, pointers@),
            decreases group.1@.len() - pi,
        {
            proof {
                assert(group.1@.skip(pi as int)[0] == group.1@[pi as int]);
                assert(group.1@.skip(pi as int).drop_first() =~= group.1@.skip(pi as int + 1));
            }
            let pointing_param = &group.1[pi];
            let pointing_serialized_param = match get_serialized_param(pointing_param, &entries) {
                Ok(sp) => sp,
                Err(e) => {
                    return Err(e);
                },
            };
            let ghost entries_snap2 = entries@;
            entries.push(
                (
                    pointing_param.clone(),
                    CombinedParam::Pointer(
                        PointerParam {
                            description: pointing_serialized_param.description,
                            pointer_target: group.0.0.clone(),
                        },
                    ),
                ),
            );
            proof {
                lemma_entry_map_push(entries_snap2, entries@.last());
            }
            pi += 1;
        }
        gi += 1;
    }
    proof {
        assert(pointers@.skip(pointers@.len() as int) =~= Seq::<
            ((ParamPath, SerializedParam), Vec<ParamPath>),
        >::empty());
    }
    Ok(entries)
}

} // verus!
