use vstd::prelude::*;
use crate::error::{JuizError, is_key_error};
use crate::identifier::{KEY_TYPE_NAME, key_type_name};
use crate::object::{JuizObject, JuizObjectClass, JuizObjectCoreHolder, ObjectCore, core_object};
use crate::value::{JsonView, Value, entries_merged, json_get, json_str, obj_get_str};

verus! {

/// A factory of containers written in Python: its core, its default manifest,
/// and the path of the script that defines the container.
pub struct PythonContainerFactoryImpl {
    pub core: ObjectCore,
    pub manifest: Value,
    pub fullpath: String,
}

impl PythonContainerFactoryImpl {
    /// A factory for the container type that the manifest names. Fails, with
    /// the error of reading the type name, where the manifest has no string
    /// type name.
    pub fn new(manifest: Value, fullpath: String) -> (r: Result<Self, JuizError>)
        ensures
            r is Ok <==> json_str(manifest@, key_type_name()) is Some,
            r matches Ok(f) ==> {
                &&& core_object(
                    f.core,
                    JuizObjectClass::ContainerFactory("ContainerFactoryImpl"),
                    json_str(manifest@, key_type_name())->0,
                    json_str(manifest@, key_type_name())->0,
                )
                &&& f.manifest@ == manifest@
                &&& f.fullpath == fullpath
            },
            r matches Err(e) ==> is_key_error(e, json_get(manifest@, key_type_name()) is None, key_type_name()),
    {
        let core = match obj_get_str(&manifest, KEY_TYPE_NAME) {
            Ok(typename) => ObjectCore::create_factory(JuizObjectClass::ContainerFactory("ContainerFactoryImpl"), typename),
            Err(e) => return Err(e),
        };
        Ok(PythonContainerFactoryImpl { core, manifest, fullpath })
    }

    /// The factory's manifest with the members of `manifest` put over it.
    pub fn apply_default_manifest(&self, manifest: &Value) -> (r: Result<Value, JuizError>)
        requires
            self.manifest@ is Object,
            manifest@ is Object,
        ensures
            r matches Ok(v) && v@ == JsonView::Object(
                self.manifest@->Object_0.union_prefer_right(manifest@->Object_0),
            ),
    {
        match (&self.manifest, manifest) {
            (Value::Object(defaults), Value::Object(given)) => Ok(Value::Object(entries_merged(defaults, given))),
            _ => {
                proof {
                    assert(false);
                }
                Ok(Value::Null)
            },
        }
    }
}

impl JuizObjectCoreHolder for PythonContainerFactoryImpl {
    open spec fn spec_core(&self) -> ObjectCore {
        self.core
    }

    fn object_core(&self) -> (r: &ObjectCore) {
        &self.core
    }
}

impl JuizObject for PythonContainerFactoryImpl {

}

/// Members given to a container override the factory's defaults; the
/// defaults fill in the rest.
pub proof fn law_given_members_override_defaults(
    defaults: Map<Seq<char>, JsonView>,
    given: Map<Seq<char>, JsonView>,
    key: Seq<char>,
)
    ensures
        defaults.union_prefer_right(given).contains_key(key) <==> (given.contains_key(key) || defaults.contains_key(key)),
        given.contains_key(key) ==> defaults.union_prefer_right(given)[key] == given[key],
        !given.contains_key(key) && defaults.contains_key(key) ==> defaults.union_prefer_right(given)[key] == defaults[key],
{
}

} // verus!
