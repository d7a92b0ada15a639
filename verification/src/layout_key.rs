//! The text that identifies a project layout.

use crate::import_method::{method_names_differ, PackageImportMethod};
use crate::text::{
    bool_text, bool_to_text, decimal, decimal_holds_digits, decimal_is_injective, decimal_to_text,
    joined, joined_is_injective, separable, FieldText,
};
use vstd::prelude::*;

verus! {

/// The groups of dependencies that an install takes in.
#[derive(Debug, Clone, Copy, PartialEq, Eq, Structural)]
pub struct IncludedDependencies {
    pub dependencies: bool,
    pub dev_dependencies: bool,
    pub optional_dependencies: bool,
}

impl IncludedDependencies {
    /// The three groups as truth values with colons between them.
    pub open spec fn text(self) -> Seq<char> {
        joined(
            seq![
                bool_text(self.dependencies),
                bool_text(self.dev_dependencies),
                bool_text(self.optional_dependencies),
            ],
            ':',
        )
    }

    fn to_text(&self) -> (text: String)
        ensures
            text@ == self.text(),
    {
        proof {
            reveal_strlit(":");
            reveal_strlit("");
        }
        let mut text = FieldText::new(bool_to_text(self.dependencies), ":");
        text.push("", bool_to_text(self.dev_dependencies));
        text.push("", bool_to_text(self.optional_dependencies));
        assert(text.fields@ =~= seq![
            bool_text(self.dependencies),
            bool_text(self.dev_dependencies),
            bool_text(self.optional_dependencies),
        ]);
        text.text
    }
}

/// What a project layout depends on, besides the lockfile.
#[derive(Debug)]
pub struct LayoutSettings {
    /// The name of the node linker.
    pub node_linker: String,
    pub import_method: PackageImportMethod,
    pub included: IncludedDependencies,
    pub virtual_store_dir_max_length: u64,
    pub symlink: bool,
    /// The root of the store, as it is displayed.
    pub store_dir: String,
    /// The modules directory, as it is displayed.
    pub modules_dir: String,
    /// The virtual store, as it is displayed.
    pub virtual_store_dir: String,
    pub hoist: bool,
    /// The hoist pattern in its debug form.
    pub hoist_pattern: String,
    /// The public hoist pattern in its debug form.
    pub public_hoist_pattern: String,
    pub shamefully_hoist: bool,
}

/// The fields of the text that identifies a layout, in their order. The first one
/// is the version of the format.
pub open spec fn layout_fields(lockfile: Seq<char>, settings: LayoutSettings) -> Seq<Seq<char>> {
    seq![
        "v1"@,
        "lockfile="@ + lockfile,
        "node_linker="@ + settings.node_linker@,
        "import_method="@ + settings.import_method.spec_name(),
        "included="@ + settings.included.text(),
        "virtual_store_max="@ + decimal(settings.virtual_store_dir_max_length as nat),
        "symlink="@ + bool_text(settings.symlink),
        "store_dir="@ + settings.store_dir@,
        "modules_dir="@ + settings.modules_dir@,
        "virtual_store_dir="@ + settings.virtual_store_dir@,
        "hoist="@ + bool_text(settings.hoist),
        "hoist_pattern="@ + settings.hoist_pattern@,
        "public_hoist_pattern="@ + settings.public_hoist_pattern@,
        "shamefully_hoist="@ + bool_text(settings.shamefully_hoist),
    ]
}

/// The text that identifies a layout: its fields, with a NUL between each two.
pub open spec fn layout_text(lockfile: Seq<char>, settings: LayoutSettings) -> Seq<char> {
    joined(layout_fields(lockfile, settings), '\0')
}

/// Writes the text that identifies the layout of a project with this lockfile and
/// these settings.
pub fn layout_key_text(lockfile: &str, settings: &LayoutSettings) -> (text: String)
    ensures
        text@ == layout_text(lockfile@, *settings),
{
    let included = settings.included.to_text();
    let max_length = decimal_to_text(settings.virtual_store_dir_max_length);
    proof {
        reveal_strlit("\0");
    }
    let mut key = FieldText::new("v1", "\0");
    key.push("lockfile=", lockfile);
    key.push("node_linker=", settings.node_linker.as_str());
    key.push("import_method=", settings.import_method.name());
    key.push("included=", included.as_str());
    key.push("virtual_store_max=", max_length.as_str());
    key.push("symlink=", bool_to_text(settings.symlink));
    key.push("store_dir=", settings.store_dir.as_str());
    key.push("modules_dir=", settings.modules_dir.as_str());
    key.push("virtual_store_dir=", settings.virtual_store_dir.as_str());
    key.push("hoist=", bool_to_text(settings.hoist));
    key.push("hoist_pattern=", settings.hoist_pattern.as_str());
    key.push("public_hoist_pattern=", settings.public_hoist_pattern.as_str());
    key.push("shamefully_hoist=", bool_to_text(settings.shamefully_hoist));
    assert(key.fields@ =~= layout_fields(lockfile@, *settings));
    key.text
}

/// Whether no text among the settings holds a NUL.
pub open spec fn free_of_nul(settings: LayoutSettings) -> bool {
    &&& !settings.node_linker@.contains('\0')
    &&& !settings.store_dir@.contains('\0')
    &&& !settings.modules_dir@.contains('\0')
    &&& !settings.virtual_store_dir@.contains('\0')
    &&& !settings.hoist_pattern@.contains('\0')
    &&& !settings.public_hoist_pattern@.contains('\0')
}

/// Whether two settings hold the same values.
pub open spec fn same_settings(a: LayoutSettings, b: LayoutSettings) -> bool {
    &&& a.node_linker@ == b.node_linker@
    &&& a.import_method == b.import_method
    &&& a.included == b.included
    &&& a.virtual_store_dir_max_length == b.virtual_store_dir_max_length
    &&& a.symlink == b.symlink
    &&& a.store_dir@ == b.store_dir@
    &&& a.modules_dir@ == b.modules_dir@
    &&& a.virtual_store_dir@ == b.virtual_store_dir@
    &&& a.hoist == b.hoist
    &&& a.hoist_pattern@ == b.hoist_pattern@
    &&& a.public_hoist_pattern@ == b.public_hoist_pattern@
    &&& a.shamefully_hoist == b.shamefully_hoist
}

proof fn lemma_bool_text(a: bool, b: bool)
    ensures
        bool_text(a) == bool_text(b) <==> a == b,
        !bool_text(a).contains('\0'),
        !bool_text(a).contains(':'),
{
    reveal_strlit("true");
    reveal_strlit("false");
    if bool_text(a) == bool_text(b) {
        assert(bool_text(a).len() == bool_text(b).len());
    }
}

proof fn lemma_included_text(a: IncludedDependencies, b: IncludedDependencies)
    ensures
        a.text() == b.text() <==> a == b,
        !a.text().contains('\0'),
{
    lemma_bool_text(a.dependencies, b.dependencies);
    lemma_bool_text(a.dev_dependencies, b.dev_dependencies);
    lemma_bool_text(a.optional_dependencies, b.optional_dependencies);
    lemma_bool_text(b.dependencies, a.dependencies);
    lemma_bool_text(b.dev_dependencies, a.dev_dependencies);
    lemma_bool_text(b.optional_dependencies, a.optional_dependencies);
    let left = seq![
        bool_text(a.dependencies),
        bool_text(a.dev_dependencies),
        bool_text(a.optional_dependencies),
    ];
    let right = seq![
        bool_text(b.dependencies),
        bool_text(b.dev_dependencies),
        bool_text(b.optional_dependencies),
    ];
    if a.text() == b.text() {
        joined_is_injective(left, right, ':');
        assert(left[0] == right[0] && left[1] == right[1] && left[2] == right[2]);
    }
    reveal_with_fuel(joined, 3);
    assert(left.drop_first().drop_first() =~= seq![left[2]]);
    assert(a.text() =~= left[0] + seq![':'] + (left[1] + seq![':'] + left[2]));
    assert(!a.text().contains('\0'));
}

proof fn lemma_field_free_of_nul(label: Seq<char>, value: Seq<char>)
    requires
        !label.contains('\0'),
        !value.contains('\0'),
    ensures
        !(label + value).contains('\0'),
{
    let field = label + value;
    assert forall|i: int| 0 <= i < field.len() implies field[i] != '\0' by {
        if i < label.len() {
            assert(field[i] == label[i]);
        } else {
            assert(field[i] == value[i - label.len()]);
        }
    }
}

proof fn lemma_same_value(label: Seq<char>, a: Seq<char>, b: Seq<char>)
    requires
        label + a == label + b,
    ensures
        a == b,
{
    assert(a =~= (label + a).skip(label.len() as int));
    assert(b =~= (label + b).skip(label.len() as int));
}

proof fn lemma_labels_free_of_nul()
    ensures
        !"v1"@.contains('\0'),
        !"lockfile="@.contains('\0'),
        !"node_linker="@.contains('\0'),
        !"import_method="@.contains('\0'),
        !"included="@.contains('\0'),
        !"virtual_store_max="@.contains('\0'),
        !"symlink="@.contains('\0'),
        !"store_dir="@.contains('\0'),
        !"modules_dir="@.contains('\0'),
        !"virtual_store_dir="@.contains('\0'),
        !"hoist="@.contains('\0'),
        !"hoist_pattern="@.contains('\0'),
        !"public_hoist_pattern="@.contains('\0'),
        !"shamefully_hoist="@.contains('\0'),
{
    reveal_strlit("v1");
    reveal_strlit("lockfile=");
    reveal_strlit("node_linker=");
    reveal_strlit("import_method=");
    reveal_strlit("included=");
    reveal_strlit("virtual_store_max=");
    reveal_strlit("symlink=");
    reveal_strlit("store_dir=");
    reveal_strlit("modules_dir=");
    reveal_strlit("virtual_store_dir=");
    reveal_strlit("hoist=");
    reveal_strlit("hoist_pattern=");
    reveal_strlit("public_hoist_pattern=");
    reveal_strlit("shamefully_hoist=");
}

proof fn lemma_fields_separable(lockfile: Seq<char>, settings: LayoutSettings)
    requires
        !lockfile.contains('\0'),
        free_of_nul(settings),
    ensures
        separable(layout_fields(lockfile, settings), '\0'),
{
    lemma_labels_free_of_nul();
    method_names_differ(settings.import_method, settings.import_method);
    lemma_included_text(settings.included, settings.included);
    lemma_bool_text(settings.symlink, settings.symlink);
    lemma_bool_text(settings.hoist, settings.hoist);
    lemma_bool_text(settings.shamefully_hoist, settings.shamefully_hoist);
    let max_length = decimal(settings.virtual_store_dir_max_length as nat);
    assert(!max_length.contains('\0')) by {
        if max_length.contains('\0') {
            decimal_holds_digits(settings.virtual_store_dir_max_length as nat, '\0');
            reveal_strlit("0123456789");
        }
    }
    lemma_field_free_of_nul("lockfile="@, lockfile);
    lemma_field_free_of_nul("node_linker="@, settings.node_linker@);
    lemma_field_free_of_nul("import_method="@, settings.import_method.spec_name());
    lemma_field_free_of_nul("included="@, settings.included.text());
    lemma_field_free_of_nul("virtual_store_max="@, max_length);
    lemma_field_free_of_nul("symlink="@, bool_text(settings.symlink));
    lemma_field_free_of_nul("store_dir="@, settings.store_dir@);
    lemma_field_free_of_nul("modules_dir="@, settings.modules_dir@);
    lemma_field_free_of_nul("virtual_store_dir="@, settings.virtual_store_dir@);
    lemma_field_free_of_nul("hoist="@, bool_text(settings.hoist));
    lemma_field_free_of_nul("hoist_pattern="@, settings.hoist_pattern@);
    lemma_field_free_of_nul("public_hoist_pattern="@, settings.public_hoist_pattern@);
    lemma_field_free_of_nul("shamefully_hoist="@, bool_text(settings.shamefully_hoist));
}

/// The text of a layout tells layouts apart: two projects have the same text
/// exactly when their lockfiles and all their settings are the same, as long as
/// no text among these holds a NUL.
pub proof fn layout_text_tells_layouts_apart(
    lockfile1: Seq<char>,
    settings1: LayoutSettings,
    lockfile2: Seq<char>,
    settings2: LayoutSettings,
)
    requires
        !lockfile1.contains('\0'),
        !lockfile2.contains('\0'),
        free_of_nul(settings1),
        free_of_nul(settings2),
    ensures
        layout_text(lockfile1, settings1) == layout_text(lockfile2, settings2) <==> lockfile1
            == lockfile2 && same_settings(settings1, settings2),
{
    let fields1 = layout_fields(lockfile1, settings1);
    let fields2 = layout_fields(lockfile2, settings2);
    if layout_text(lockfile1, settings1) == layout_text(lockfile2, settings2) {
        lemma_fields_separable(lockfile1, settings1);
        lemma_fields_separable(lockfile2, settings2);
        joined_is_injective(fields1, fields2, '\0');
        let max_length1 = settings1.virtual_store_dir_max_length as nat;
        let max_length2 = settings2.virtual_store_dir_max_length as nat;
        assert(fields1[1] == fields2[1]);
        lemma_same_value("lockfile="@, lockfile1, lockfile2);
        assert(fields1[2] == fields2[2]);
        lemma_same_value("node_linker="@, settings1.node_linker@, settings2.node_linker@);
        assert(fields1[3] == fields2[3]);
        lemma_same_value(
            "import_method="@,
            settings1.import_method.spec_name(),
            settings2.import_method.spec_name(),
        );
        method_names_differ(settings1.import_method, settings2.import_method);
        assert(fields1[4] == fields2[4]);
        lemma_same_value("included="@, settings1.included.text(), settings2.included.text());
        lemma_included_text(settings1.included, settings2.included);
        assert(fields1[5] == fields2[5]);
        lemma_same_value("virtual_store_max="@, decimal(max_length1), decimal(max_length2));
        decimal_is_injective(max_length1, max_length2);
        assert(fields1[6] == fields2[6]);
        lemma_same_value("symlink="@, bool_text(settings1.symlink), bool_text(settings2.symlink));
        lemma_bool_text(settings1.symlink, settings2.symlink);
        assert(fields1[7] == fields2[7]);
        lemma_same_value("store_dir="@, settings1.store_dir@, settings2.store_dir@);
        assert(fields1[8] == fields2[8]);
        lemma_same_value("modules_dir="@, settings1.modules_dir@, settings2.modules_dir@);
        assert(fields1[9] == fields2[9]);
        lemma_same_value(
            "virtual_store_dir="@,
            settings1.virtual_store_dir@,
            settings2.virtual_store_dir@,
        );
        assert(fields1[10] == fields2[10]);
        lemma_same_value("hoist="@, bool_text(settings1.hoist), bool_text(settings2.hoist));
        lemma_bool_text(settings1.hoist, settings2.hoist);
        assert(fields1[11] == fields2[11]);
        lemma_same_value("hoist_pattern="@, settings1.hoist_pattern@, settings2.hoist_pattern@);
        assert(fields1[12] == fields2[12]);
        lemma_same_value(
            "public_hoist_pattern="@,
            settings1.public_hoist_pattern@,
            settings2.public_hoist_pattern@,
        );
        assert(fields1[13] == fields2[13]);
        lemma_same_value(
            "shamefully_hoist="@,
            bool_text(settings1.shamefully_hoist),
            bool_text(settings2.shamefully_hoist),
        );
        lemma_bool_text(settings1.shamefully_hoist, settings2.shamefully_hoist);
    }
    if lockfile1 == lockfile2 && same_settings(settings1, settings2) {
        assert(fields1 =~= fields2);
    }
}

proof fn lemma_rest_of_fields(fields: Seq<Seq<char>>, at: int)
    requires
        0 <= at < fields.len() - 1,
    ensures
        joined(fields.skip(at), '\0') == fields[at] + seq!['\0'] + joined(
            fields.skip(at + 1),
            '\0',
        ),
{
    assert(fields.skip(at).drop_first() =~= fields.skip(at + 1));
}

proof fn lemma_next_field(
    text: Seq<char>,
    label: Seq<char>,
    separated_label: Seq<char>,
    value: Seq<char>,
    fields: Seq<Seq<char>>,
    at: int,
)
    requires
        0 <= at < fields.len() - 1,
        separated_label == seq!['\0'] + label,
        fields[at] == label + value,
    ensures
        text + seq!['\0'] + joined(fields.skip(at), '\0') == text + separated_label + value
            + seq!['\0'] + joined(fields.skip(at + 1), '\0'),
{
    lemma_rest_of_fields(fields, at);
    assert(text + seq!['\0'] + joined(fields.skip(at), '\0') =~= text + separated_label + value
        + seq!['\0'] + joined(fields.skip(at + 1), '\0'));
}

proof fn lemma_last_field(
    text: Seq<char>,
    label: Seq<char>,
    separated_label: Seq<char>,
    value: Seq<char>,
    fields: Seq<Seq<char>>,
    at: int,
)
    requires
        0 <= at == fields.len() - 1,
        separated_label == seq!['\0'] + label,
        fields[at] == label + value,
    ensures
        text + seq!['\0'] + joined(fields.skip(at), '\0') == text + separated_label + value,
{
    assert(fields.skip(at) =~= seq![fields[at]]);
    assert(text + seq!['\0'] + fields[at] =~= text + separated_label + value);
}

proof fn lemma_groups_in_text(text: Seq<char>, groups: IncludedDependencies)
    ensures
        text + groups.text() == text + bool_text(groups.dependencies) + ":"@ + bool_text(
            groups.dev_dependencies,
        ) + ":"@ + bool_text(groups.optional_dependencies),
{
    reveal_strlit(":");
    reveal_with_fuel(joined, 3);
    let first = bool_text(groups.dependencies);
    let second = bool_text(groups.dev_dependencies);
    let third = bool_text(groups.optional_dependencies);
    assert(seq![first, second, third].drop_first().drop_first() =~= seq![third]);
    assert(text + groups.text() =~= text + first + ":"@ + second + ":"@ + third);
}

proof fn lemma_separated_labels()
    ensures
        "\0lockfile="@ == seq!['\0'] + "lockfile="@,
        "\0node_linker="@ == seq!['\0'] + "node_linker="@,
        "\0import_method="@ == seq!['\0'] + "import_method="@,
        "\0included="@ == seq!['\0'] + "included="@,
        "\0virtual_store_max="@ == seq!['\0'] + "virtual_store_max="@,
        "\0symlink="@ == seq!['\0'] + "symlink="@,
        "\0store_dir="@ == seq!['\0'] + "store_dir="@,
        "\0modules_dir="@ == seq!['\0'] + "modules_dir="@,
        "\0virtual_store_dir="@ == seq!['\0'] + "virtual_store_dir="@,
        "\0hoist="@ == seq!['\0'] + "hoist="@,
        "\0hoist_pattern="@ == seq!['\0'] + "hoist_pattern="@,
        "\0public_hoist_pattern="@ == seq!['\0'] + "public_hoist_pattern="@,
        "\0shamefully_hoist="@ == seq!['\0'] + "shamefully_hoist="@,
{
    assert("\0lockfile="@ == seq!['\0'] + "lockfile="@) by {
        reveal_strlit("lockfile=");
        reveal_strlit("\0lockfile=");
    }
    assert("\0node_linker="@ == seq!['\0'] + "node_linker="@) by {
        reveal_strlit("node_linker=");
        reveal_strlit("\0node_linker=");
    }
    assert("\0import_method="@ == seq!['\0'] + "import_method="@) by {
        reveal_strlit("import_method=");
        reveal_strlit("\0import_method=");
    }
    assert("\0included="@ == seq!['\0'] + "included="@) by {
        reveal_strlit("included=");
        reveal_strlit("\0included=");
    }
    assert("\0virtual_store_max="@ == seq!['\0'] + "virtual_store_max="@) by {
        reveal_strlit("virtual_store_max=");
        reveal_strlit("\0virtual_store_max=");
    }
    assert("\0symlink="@ == seq!['\0'] + "symlink="@) by {
        reveal_strlit("symlink=");
        reveal_strlit("\0symlink=");
    }
    assert("\0store_dir="@ == seq!['\0'] + "store_dir="@) by {
        reveal_strlit("store_dir=");
        reveal_strlit("\0store_dir=");
    }
    assert("\0modules_dir="@ == seq!['\0'] + "modules_dir="@) by {
        reveal_strlit("modules_dir=");
        reveal_strlit("\0modules_dir=");
    }
    assert("\0virtual_store_dir="@ == seq!['\0'] + "virtual_store_dir="@) by {
        reveal_strlit("virtual_store_dir=");
        reveal_strlit("\0virtual_store_dir=");
    }
    assert("\0hoist="@ == seq!['\0'] + "hoist="@) by {
        reveal_strlit("hoist=");
        reveal_strlit("\0hoist=");
    }
    assert("\0hoist_pattern="@ == seq!['\0'] + "hoist_pattern="@) by {
        reveal_strlit("hoist_pattern=");
        reveal_strlit("\0hoist_pattern=");
    }
    assert("\0public_hoist_pattern="@ == seq!['\0'] + "public_hoist_pattern="@) by {
        reveal_strlit("public_hoist_pattern=");
        reveal_strlit("\0public_hoist_pattern=");
    }
    assert("\0shamefully_hoist="@ == seq!['\0'] + "shamefully_hoist="@) by {
        reveal_strlit("shamefully_hoist=");
        reveal_strlit("\0shamefully_hoist=");
    }
}

/// The text of a layout reads, from its beginning to its end: the version of the
/// format, and then the lockfile and each setting under its own name, with the names
/// in a fixed order and a NUL before each.
pub proof fn layout_texts_name_every_setting(
    lockfile: &str,
    settings: LayoutSettings,
    text: String,
    method: &'static str,
    dependencies: &'static str,
    dev_dependencies: &'static str,
    optional_dependencies: &'static str,
    max_length: String,
    symlink: &'static str,
    hoist: &'static str,
    shamefully_hoist: &'static str,
)
    requires
        call_ensures(layout_key_text, (lockfile, &settings), text),
        call_ensures(PackageImportMethod::name, (&settings.import_method,), method),
        call_ensures(bool_to_text, (settings.included.dependencies,), dependencies),
        call_ensures(bool_to_text, (settings.included.dev_dependencies,), dev_dependencies),
        call_ensures(
            bool_to_text,
            (settings.included.optional_dependencies,),
            optional_dependencies,
        ),
        call_ensures(decimal_to_text, (settings.virtual_store_dir_max_length,), max_length),
        call_ensures(bool_to_text, (settings.symlink,), symlink),
        call_ensures(bool_to_text, (settings.hoist,), hoist),
        call_ensures(bool_to_text, (settings.shamefully_hoist,), shamefully_hoist),
    ensures
        text@ == "v1"@
            + "\0lockfile="@ + lockfile@
            + "\0node_linker="@ + settings.node_linker@
            + "\0import_method="@ + method@
            + "\0included="@ + dependencies@ + ":"@ + dev_dependencies@ + ":"@
            + optional_dependencies@
            + "\0virtual_store_max="@ + max_length@
            + "\0symlink="@ + symlink@
            + "\0store_dir="@ + settings.store_dir@
            + "\0modules_dir="@ + settings.modules_dir@
            + "\0virtual_store_dir="@ + settings.virtual_store_dir@
            + "\0hoist="@ + hoist@
            + "\0hoist_pattern="@ + settings.hoist_pattern@
            + "\0public_hoist_pattern="@ + settings.public_hoist_pattern@
            + "\0shamefully_hoist="@ + shamefully_hoist@,
{
    let fields = layout_fields(lockfile@, settings);
    let included = settings.included.text();
    lemma_separated_labels();
    let text0 = "v1"@;
    assert(layout_text(lockfile@, settings) =~= text0 + seq!['\0'] + joined(
        fields.skip(1),
        '\0',
    )) by {
        lemma_rest_of_fields(fields, 0);
        assert(fields.skip(0) =~= fields);
    }
    let text1 = text0 + "\0lockfile="@ + lockfile@;
    lemma_next_field(text0, "lockfile="@, "\0lockfile="@, lockfile@, fields, 1);
    let text2 = text1 + "\0node_linker="@ + settings.node_linker@;
    lemma_next_field(text1, "node_linker="@, "\0node_linker="@, settings.node_linker@, fields, 2);
    let text3 = text2 + "\0import_method="@ + method@;
    lemma_next_field(text2, "import_method="@, "\0import_method="@, method@, fields, 3);
    let text4 = text3 + "\0included="@ + included;
    lemma_next_field(text3, "included="@, "\0included="@, included, fields, 4);
    let text5 = text4 + "\0virtual_store_max="@ + max_length@;
    lemma_next_field(text4, "virtual_store_max="@, "\0virtual_store_max="@, max_length@, fields, 5);
    let text6 = text5 + "\0symlink="@ + symlink@;
    lemma_next_field(text5, "symlink="@, "\0symlink="@, symlink@, fields, 6);
    let text7 = text6 + "\0store_dir="@ + settings.store_dir@;
    lemma_next_field(text6, "store_dir="@, "\0store_dir="@, settings.store_dir@, fields, 7);
    let text8 = text7 + "\0modules_dir="@ + settings.modules_dir@;
    lemma_next_field(text7, "modules_dir="@, "\0modules_dir="@, settings.modules_dir@, fields, 8);
    let text9 = text8 + "\0virtual_store_dir="@ + settings.virtual_store_dir@;
    lemma_next_field(
        text8,
        "virtual_store_dir="@,
        "\0virtual_store_dir="@,
        settings.virtual_store_dir@,
        fields,
        9,
    );
    let text10 = text9 + "\0hoist="@ + hoist@;
    lemma_next_field(text9, "hoist="@, "\0hoist="@, hoist@, fields, 10);
    let text11 = text10 + "\0hoist_pattern="@ + settings.hoist_pattern@;
    lemma_next_field(
        text10,
        "hoist_pattern="@,
        "\0hoist_pattern="@,
        settings.hoist_pattern@,
        fields,
        11,
    );
    let text12 = text11 + "\0public_hoist_pattern="@ + settings.public_hoist_pattern@;
    lemma_next_field(
        text11,
        "public_hoist_pattern="@,
        "\0public_hoist_pattern="@,
        settings.public_hoist_pattern@,
        fields,
        12,
    );
    let text13 = text12 + "\0shamefully_hoist="@ + shamefully_hoist@;
    lemma_last_field(
        text12,
        "shamefully_hoist="@,
        "\0shamefully_hoist="@,
        shamefully_hoist@,
        fields,
        13,
    );
    lemma_groups_in_text(text3 + "\0included="@, settings.included);
}

} // verus!
