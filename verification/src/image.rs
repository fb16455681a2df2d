//! Loaded modules and the image descriptors collected from them.

use crate::identifier::{
    normalize, normalized, DebugIdModel, IdentifierModel, NativeIdentifier, NormalizedDebugId,
};
use vstd::prelude::*;

verus! {

/// The name given to an unnamed module when the path of the running executable
/// cannot be determined.
pub const PLACEHOLDER_NAME: &'static str = "<main>";

/// What the loader reports of one module, untouched.
#[derive(Clone, Debug, PartialEq, Eq)]
pub struct RawModule {
    /// The native identifier, where the module exposes one.
    pub id: Option<NativeIdentifier>,
    /// The module's name; empty where the loader knows none, which is typical
    /// of the main executable.
    pub name: String,
    /// The address at which the image is mapped.
    pub base_address: usize,
    /// The size of the image in bytes.
    pub size: usize,
    /// The difference between the addresses in memory and those stated in
    /// the image.
    pub bias: usize,
}

/// The mathematical content of a [`RawModule`].
pub struct ModuleModel {
    pub id: Option<IdentifierModel>,
    pub name: Seq<char>,
    pub base_address: usize,
    pub size: usize,
    pub bias: usize,
}

impl View for RawModule {
    type V = ModuleModel;

    open spec fn view(&self) -> ModuleModel {
        ModuleModel {
            id: self.id.deep_view(),
            name: self.name@,
            base_address: self.base_address,
            size: self.size,
            bias: self.bias,
        }
    }
}

impl DeepView for RawModule {
    type V = ModuleModel;

    open spec fn deep_view(&self) -> ModuleModel {
        self@
    }
}

/// One enumeration of the process's modules: whether the platform can be
/// enumerated at all, and the modules in the order in which the loader
/// reported them.
#[derive(Clone, Debug, PartialEq, Eq)]
pub struct LoadedModules {
    pub supported: bool,
    pub modules: Vec<RawModule>,
}

/// The description of one image, as it goes into a report.
#[derive(Clone, Debug, PartialEq, Eq)]
pub struct ImageDescriptor {
    pub name: String,
    /// The CPU architecture. The collector leaves it unset.
    pub architecture: Option<String>,
    pub base_address: u64,
    pub size: u64,
    pub vmaddr_bias: u64,
    pub debug_id: NormalizedDebugId,
}

/// The mathematical content of an [`ImageDescriptor`].
pub struct ImageModel {
    pub name: Seq<char>,
    pub architecture: Option<Seq<char>>,
    pub base_address: u64,
    pub size: u64,
    pub vmaddr_bias: u64,
    pub debug_id: DebugIdModel,
}

impl View for ImageDescriptor {
    type V = ImageModel;

    open spec fn view(&self) -> ImageModel {
        ImageModel {
            name: self.name@,
            architecture: self.architecture.deep_view(),
            base_address: self.base_address,
            size: self.size,
            vmaddr_bias: self.vmaddr_bias,
            debug_id: self.debug_id@,
        }
    }
}

impl DeepView for ImageDescriptor {
    type V = ImageModel;

    open spec fn deep_view(&self) -> ImageModel {
        self@
    }
}

/// The name under which a module is reported: its own where it has one, else
/// the path of the running executable, else the placeholder.
pub open spec fn display_name(name: Seq<char>, executable: Option<Seq<char>>) -> Seq<char> {
    if name.len() > 0 {
        name
    } else {
        match executable {
            Some(path) => path,
            None => PLACEHOLDER_NAME@,
        }
    }
}

/// The normalized identifier of a module, where it has one.
pub open spec fn module_debug_id(module: ModuleModel) -> Option<DebugIdModel> {
    match module.id {
        Some(id) => normalized(id),
        None => None,
    }
}

/// The descriptor of one module, or `None` for a module that is left out
/// because it has no identifier that can be normalized.
pub open spec fn described(module: ModuleModel, executable: Option<Seq<char>>) -> Option<
    ImageModel,
> {
    match module_debug_id(module) {
        Some(debug_id) => Some(
            ImageModel {
                name: display_name(module.name, executable),
                architecture: None,
                base_address: module.base_address as u64,
                size: module.size as u64,
                vmaddr_bias: module.bias as u64,
                debug_id,
            },
        ),
        None => None,
    }
}

/// `described` with the executable's path fixed.
pub open spec fn describer(executable: Option<Seq<char>>) -> spec_fn(ModuleModel) -> Option<
    ImageModel,
> {
    |module: ModuleModel| described(module, executable)
}

/// The descriptors collected from an enumeration: none on an unsupported
/// platform; else those of the modules that can be described, in the order of
/// the modules.
pub open spec fn collected(
    supported: bool,
    modules: Seq<ModuleModel>,
    executable: Option<Seq<char>>,
) -> Seq<ImageModel> {
    if supported {
        modules.filter_map(describer(executable))
    } else {
        Seq::empty()
    }
}

/// Whether describing the modules takes the path of the running executable:
/// it does where a module that can be described has no name.
pub open spec fn executable_wanted(supported: bool, modules: Seq<ModuleModel>) -> bool {
    supported && exists|i: int|
        0 <= i < modules.len() && #[trigger] module_debug_id(modules[i]) is Some
            && modules[i].name.len() == 0
}

/// Chooses the name under which a module is reported.
///
/// A name that is not empty is kept as it is. An empty one is replaced by the
/// path of the running executable, or by [`PLACEHOLDER_NAME`] where there is no
/// such path.
pub fn resolve_name(name: &String, executable: &Option<String>) -> (resolved: String)
    ensures
        resolved@ == display_name(name@, executable.deep_view()),
        name@.len() > 0 ==> resolved@ == name@,
        name@.len() == 0 && executable is Some ==> resolved@ == executable->0@,
        name@.len() == 0 && executable is None ==> resolved@ == PLACEHOLDER_NAME@,
{
    if !name.as_str().is_empty() {
        name.clone()
    } else {
        match executable {
            Some(path) => path.clone(),
            None => PLACEHOLDER_NAME.to_owned(),
        }
    }
}

/// Describes one module.
///
/// A module whose identifier normalizes gives a descriptor with that
/// identifier, the resolved name, no architecture, and address, size and bias
/// exactly as the loader reported them. Any other module gives `None`.
pub fn describe(module: &RawModule, executable: &Option<String>) -> (image: Option<
    ImageDescriptor,
>)
    ensures
        image.deep_view() == described(module@, executable.deep_view()),
        image matches Some(found) ==> {
            &&& found.name@ == display_name(module.name@, executable.deep_view())
            &&& found.architecture is None
            &&& found.base_address == module.base_address
            &&& found.size == module.size
            &&& found.vmaddr_bias == module.bias
            &&& Some(found.debug_id@) == module_debug_id(module@)
        },
{
    let debug_id = match &module.id {
        Some(id) => normalize(id),
        None => None,
    };
    match debug_id {
        Some(debug_id) => Some(
            ImageDescriptor {
                name: resolve_name(&module.name, executable),
                architecture: None,
                base_address: module.base_address as u64,
                size: module.size as u64,
                vmaddr_bias: module.bias as u64,
                debug_id,
            },
        ),
        None => None,
    }
}

/// Collects the descriptors of the loaded images.
///
/// On an unsupported platform the result is empty and no module is looked at.
/// Otherwise every module is described in turn; one that cannot be described is
/// skipped, and the others keep the loader's order. Nothing is sorted and
/// nothing is removed as a duplicate.
pub fn collect_images(loaded: &LoadedModules, executable: &Option<String>) -> (images: Vec<
    ImageDescriptor,
>)
    ensures
        images.deep_view() == collected(
            loaded.supported,
            loaded.modules.deep_view(),
            executable.deep_view(),
        ),
        !loaded.supported ==> images@.len() == 0,
{
    let mut images: Vec<ImageDescriptor> = Vec::new();
    if !loaded.supported {
        assert(images.deep_view() =~= Seq::<ImageModel>::empty());
        return images;
    }
    let ghost models = loaded.modules.deep_view();
    let ghost describe_one = describer(executable.deep_view());
    let mut index: usize = 0;
    assert(models.take(0) =~= Seq::<ModuleModel>::empty());
    assert(images.deep_view() =~= Seq::<ImageModel>::empty());
    while index < loaded.modules.len()
        invariant
            index <= loaded.modules.len(),
            models == loaded.modules.deep_view(),
            models.len() == loaded.modules.len(),
            describe_one == describer(executable.deep_view()),
            images.deep_view() == models.take(index as int).filter_map(describe_one),
        decreases loaded.modules.len() - index,
    {
        let ghost before = images.deep_view();
        let image = describe(&loaded.modules[index], executable);
        proof {
            models.lemma_filter_map_take_succ(describe_one, index as int);
            assert(models[index as int] == loaded.modules@[index as int]@);
        }
        match image {
            Some(image) => {
                images.push(image);
                assert(images.deep_view() =~= before + seq![image@]);
            },
            None => {},
        }
        index += 1;
    }
    assert(models.take(index as int) =~= models);
    images
}

/// Tells whether [`collect_images`] will use the path of the running
/// executable, so that a caller can leave the lookup out where it is not
/// needed.
pub fn needs_executable_path(loaded: &LoadedModules) -> (wanted: bool)
    ensures
        wanted == executable_wanted(loaded.supported, loaded.modules.deep_view()),
{
    if !loaded.supported {
        return false;
    }
    let ghost models = loaded.modules.deep_view();
    let mut index: usize = 0;
    while index < loaded.modules.len()
        invariant
            loaded.supported,
            index <= loaded.modules.len(),
            models == loaded.modules.deep_view(),
            models.len() == loaded.modules.len(),
            forall|i: int|
                0 <= i < index ==> !(#[trigger] module_debug_id(models[i]) is Some
                    && models[i].name.len() == 0),
        decreases loaded.modules.len() - index,
    {
        let module = &loaded.modules[index];
        assert(models[index as int] == module@);
        if module.name.as_str().is_empty() {
            let debug_id = match &module.id {
                Some(id) => normalize(id),
                None => None,
            };
            if debug_id.is_some() {
                assert(module_debug_id(models[index as int]) is Some);
                return true;
            }
        }
        index += 1;
    }
    false
}

/// Collecting goes module by module: the descriptors of two runs of modules,
/// one after the other, are the descriptors of the first run followed by those
/// of the second.
pub proof fn lemma_collected_concat(
    supported: bool,
    first: Seq<ModuleModel>,
    second: Seq<ModuleModel>,
    executable: Option<Seq<char>>,
)
    ensures
        collected(supported, first + second, executable) == collected(
            supported,
            first,
            executable,
        ) + collected(supported, second, executable),
    decreases second.len(),
{
    let describe_one = describer(executable);
    if !supported {
        assert(Seq::<ImageModel>::empty() + Seq::<ImageModel>::empty() =~= Seq::<
            ImageModel,
        >::empty());
    } else if second.len() == 0 {
        assert(first + second =~= first);
        assert(first.filter_map(describe_one) + second.filter_map(describe_one)
            =~= first.filter_map(describe_one));
    } else {
        let all = first + second;
        assert(all.drop_last() =~= first + second.drop_last());
        assert(all.last() == second.last());
        lemma_collected_concat(supported, first, second.drop_last(), executable);
        assert(all.filter_map(describe_one) =~= first.filter_map(describe_one) + second.filter_map(
            describe_one,
        ));
    }
}

/// A single module contributes its descriptor, or nothing where it cannot be
/// described.
pub proof fn lemma_collected_single(module: ModuleModel, executable: Option<Seq<char>>)
    ensures
        collected(true, seq![module], executable) == match described(module, executable) {
            Some(image) => seq![image],
            None => Seq::empty(),
        },
{
    Seq::lemma_filter_map_singleton(module, describer(executable));
}

/// A module whose identifier cannot be normalized contributes nothing and
/// stands in nobody's way: the modules before it and after it are collected as
/// if it were not there.
pub proof fn lemma_unrepresentable_module_skipped(
    before: Seq<ModuleModel>,
    module: ModuleModel,
    after: Seq<ModuleModel>,
    executable: Option<Seq<char>>,
)
    requires
        module_debug_id(module) is None,
    ensures
        collected(true, before + seq![module] + after, executable) == collected(
            true,
            before + after,
            executable,
        ),
{
    lemma_collected_concat(true, before + seq![module], after, executable);
    lemma_collected_concat(true, before, seq![module], executable);
    lemma_collected_single(module, executable);
    lemma_collected_concat(true, before, after, executable);
    assert(collected(true, before, executable) + Seq::<ImageModel>::empty() =~= collected(
        true,
        before,
        executable,
    ));
}

/// Where every module can be described, there is one descriptor for each, and
/// they stand in the order of the modules.
pub proof fn lemma_order_preserved(modules: Seq<ModuleModel>, executable: Option<Seq<char>>)
    requires
        forall|i: int| 0 <= i < modules.len() ==> #[trigger] module_debug_id(modules[i]) is Some,
    ensures
        collected(true, modules, executable).len() == modules.len(),
        forall|i: int|
            0 <= i < modules.len() ==> described(#[trigger] modules[i], executable) == Some(
                collected(true, modules, executable)[i],
            ),
    decreases modules.len(),
{
    if modules.len() > 0 {
        let rest = modules.drop_last();
        assert forall|i: int| 0 <= i < rest.len() implies #[trigger] module_debug_id(
            rest[i],
        ) is Some by {
            assert(rest[i] == modules[i]);
        }
        lemma_order_preserved(rest, executable);
        assert(module_debug_id(modules[modules.len() - 1]) is Some);
        assert forall|i: int| 0 <= i < modules.len() implies described(
            #[trigger] modules[i],
            executable,
        ) == Some(collected(true, modules, executable)[i]) by {
            if i < rest.len() {
                assert(rest[i] == modules[i]);
            }
        }
    }
}

/// Every descriptor that is collected describes one of the modules.
pub proof fn lemma_collected_from_modules(
    supported: bool,
    modules: Seq<ModuleModel>,
    executable: Option<Seq<char>>,
    index: int,
)
    requires
        0 <= index < collected(supported, modules, executable).len(),
    ensures
        supported,
        exists|i: int|
            0 <= i < modules.len() && #[trigger] described(modules[i], executable) == Some(
                collected(supported, modules, executable)[index],
            ),
{
    let images = collected(supported, modules, executable);
    let image = images[index];
    assert(images.contains(image));
    modules.lemma_filter_map_contains(describer(executable), image);
    let module = choose|module: ModuleModel| #[trigger]
        modules.contains(module) && describer(executable)(module) == Some(image);
    let i = choose|i: int| 0 <= i < modules.len() && modules[i] == module;
    assert(described(modules[i], executable) == Some(image));
}

/// No descriptor is left without a name, as long as the executable's path,
/// where there is one, is not the empty string; and none states an
/// architecture.
pub proof fn lemma_collected_names_not_empty(
    supported: bool,
    modules: Seq<ModuleModel>,
    executable: Option<Seq<char>>,
)
    requires
        executable matches Some(path) ==> path.len() > 0,
    ensures
        forall|i: int|
            0 <= i < collected(supported, modules, executable).len() ==> (#[trigger] collected(
                supported,
                modules,
                executable,
            )[i]).name.len() > 0,
        forall|i: int|
            0 <= i < collected(supported, modules, executable).len() ==> (#[trigger] collected(
                supported,
                modules,
                executable,
            )[i]).architecture is None,
{
    reveal_strlit("<main>");
    let images = collected(supported, modules, executable);
    assert forall|i: int| 0 <= i < images.len() implies (#[trigger] images[i]).name.len() > 0
        && images[i].architecture is None by {
        lemma_collected_from_modules(supported, modules, executable, i);
    }
}

/// Where no describable module is unnamed, the executable's path plays no part
/// in what is collected.
pub proof fn lemma_executable_unused(
    supported: bool,
    modules: Seq<ModuleModel>,
    one: Option<Seq<char>>,
    other: Option<Seq<char>>,
)
    requires
        !executable_wanted(supported, modules),
    ensures
        collected(supported, modules, one) == collected(supported, modules, other),
    decreases modules.len(),
{
    if supported && modules.len() > 0 {
        let rest = modules.drop_last();
        let last = modules.last();
        assert forall|i: int| 0 <= i < rest.len() implies !(#[trigger] module_debug_id(
            rest[i],
        ) is Some && rest[i].name.len() == 0) by {
            assert(rest[i] == modules[i]);
            assert(!(module_debug_id(modules[i]) is Some && modules[i].name.len() == 0));
        }
        lemma_executable_unused(supported, rest, one, other);
        assert(!(module_debug_id(modules[modules.len() - 1]) is Some && modules[modules.len()
            - 1].name.len() == 0));
        assert(described(last, one) == described(last, other));
    }
}

/// Collecting is a function of the enumeration and the executable's path
/// alone: two enumerations with the same content give descriptors with the
/// same content, however often and in whatever order they are collected.
pub proof fn lemma_collect_repeatable(
    first: LoadedModules,
    second: LoadedModules,
    executable: Option<String>,
    first_images: Vec<ImageDescriptor>,
    second_images: Vec<ImageDescriptor>,
)
    requires
        first.supported == second.supported,
        first.modules.deep_view() == second.modules.deep_view(),
        first_images.deep_view() == collected(
            first.supported,
            first.modules.deep_view(),
            executable.deep_view(),
        ),
        second_images.deep_view() == collected(
            second.supported,
            second.modules.deep_view(),
            executable.deep_view(),
        ),
    ensures
        first_images.deep_view() == second_images.deep_view(),
        first_images@.len() == second_images@.len(),
        forall|i: int|
            0 <= i < first_images@.len() ==> (#[trigger] first_images@[i])@ == second_images@[i]@,
{
    assert(first_images.deep_view().len() == first_images@.len());
    assert(second_images.deep_view().len() == second_images@.len());
    assert forall|i: int| 0 <= i < first_images@.len() implies (#[trigger] first_images@[i])@
        == second_images@[i]@ by {
        assert(first_images.deep_view()[i] == first_images@[i]@);
        assert(second_images.deep_view()[i] == second_images@[i]@);
    }
}

} // verus!
