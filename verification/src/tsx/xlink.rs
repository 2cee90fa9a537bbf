//! Moving base64 data URIs out of `href`/`xlink:href` attributes into
//! named constants or image files.

use vstd::prelude::*;
use base64::Engine;
use crate::ids::{new_uuid, UuidText, well_formed_uuid};
use crate::order::{sort_by_key, sorted_by_key};
use crate::text::{cat2, contains, has_char, first_occurrence, owned, starts_with, str_contains, str_eq, str_starts_with, views};

use crate::tsx::imports::{ImportDecl, ImportSpecifier, SpecifierV, imports_view, import_view, specifier_view, prepend_imports};

verus! {

/// An image moved out of a data URI.
#[derive(Debug, Clone)]
pub struct Base64Image {
    pub id: UuidText,
    pub mime_type: String,
    pub data: String,
    pub variable_name: String,
    pub file_extension: String,
}

/// The position of the first `c` in `s`.
pub open spec fn first_char(s: Seq<char>, c: char) -> Option<int> {
    first_occurrence(s, seq![c])
}

/// The file extension for a MIME type.
pub open spec fn extension_for(mime: Seq<char>) -> Seq<char> {
    if mime == "image/png"@ {
        "png"@
    } else if mime == "image/jpeg"@ || mime == "image/jpg"@ {
        "jpg"@
    } else if mime == "image/gif"@ {
        "gif"@
    } else if mime == "image/svg+xml"@ {
        "svg"@
    } else if mime == "image/webp"@ {
        "webp"@
    } else {
        "bin"@
    }
}

/// The MIME type, data and file extension of a base64 data URI
/// (`data:[<mediatype>][;base64],<data>`): the header before the first `,`
/// must mention `base64`; the MIME type runs from after `data:` to the first
/// `;`, and is `application/octet-stream` without one.
pub open spec fn data_uri_parts(uri: Seq<char>) -> Option<(Seq<char>, Seq<char>, Seq<char>)> {
    if !starts_with(uri, "data:"@) {
        None
    } else {
        match first_char(uri, ',') {
            None => None,
            Some(c) => {
                let header = uri.take(c);
                let data = uri.skip(c + 1);
                if !contains(header, "base64"@) {
                    None
                } else {
                    let mime = match first_char(header, ';') {
                        Some(k) => header.subrange(5, k),
                        None => "application/octet-stream"@,
                    };
                    Some((mime, data, extension_for(mime)))
                }
            },
        }
    }
}

/// The file extension of an extracted image follows its MIME type:
/// `image/png` gives `png`, `image/jpeg` and `image/jpg` give `jpg`,
/// `image/gif` `gif`, `image/svg+xml` `svg`, `image/webp` `webp`; `bin`
/// comes exactly from the other types.
pub proof fn law_image_extension_follows_mime(uri: Seq<char>)
    requires
        data_uri_parts(uri) is Some,
    ensures
        ({
            let parts = data_uri_parts(uri)->0;
            let m = parts.0;
            let e = parts.2;
            &&& m == "image/png"@ ==> e == "png"@
            &&& m == "image/jpeg"@ ==> e == "jpg"@
            &&& m == "image/jpg"@ ==> e == "jpg"@
            &&& m == "image/gif"@ ==> e == "gif"@
            &&& m == "image/svg+xml"@ ==> e == "svg"@
            &&& m == "image/webp"@ ==> e == "webp"@
            &&& (e == "bin"@ <==> !(m == "image/png"@ || m == "image/jpeg"@ || m == "image/jpg"@ || m == "image/gif"@
                || m == "image/svg+xml"@ || m == "image/webp"@))
        }),
{
    reveal_strlit("png");
    reveal_strlit("jpg");
    reveal_strlit("gif");
    reveal_strlit("svg");
    reveal_strlit("webp");
    reveal_strlit("bin");
    reveal_strlit("image/png");
    reveal_strlit("image/jpeg");
    reveal_strlit("image/jpg");
    reveal_strlit("image/gif");
    reveal_strlit("image/svg+xml");
    reveal_strlit("image/webp");
    assert("image/png"@[6] == 'p' && "image/jpg"@[6] == 'j' && "image/gif"@[6] == 'g' && "image/jpeg"@[6] == 'j'
        && "image/webp"@[6] == 'w' && "image/svg+xml"@.len() == 13 && "image/png"@.len() == 9
        && "image/jpeg"@.len() == 10 && "image/jpg"@.len() == 9 && "image/gif"@.len() == 9 && "image/webp"@.len() == 10);
    let parts = data_uri_parts(uri)->0;
    let c = first_char(uri, ',')->0;
    let header = uri.take(c);
    let mime = match first_char(header, ';') {
        Some(k) => header.subrange(5, k),
        None => "application/octet-stream"@,
    };
    assert(parts == (mime, uri.skip(c + 1), extension_for(mime)));
    let e = parts.2;
    assert("png"@[0] == 'p' && "jpg"@[0] == 'j' && "gif"@[0] == 'g' && "svg"@[0] == 's' && "webp"@.len() == 4
        && "bin"@[0] == 'b' && "bin"@.len() == 3);
}

/// The name of the constant for an image with the given UUID digits.
pub open spec fn variable_name_for(simple: Seq<char>) -> Seq<char> {
    "base64Image_"@ + simple
}

/// The declaration of the constant that holds an image.
pub open spec fn declaration_of(img: Base64Image) -> Seq<char> {
    "export const "@ + img.variable_name@ + " = \"data:"@ + img.mime_type@ + ";base64,"@ + img.data@ + "\";\n"@
}

/// The declarations of the constants of the images, in order.
pub open spec fn declarations_of(images: Seq<Base64Image>) -> Seq<char>
    decreases images.len(),
{
    if images.len() == 0 {
        seq![]
    } else {
        declarations_of(images.drop_last()) + declaration_of(images.last())
    }
}

/// The header of the declarations file.
pub open spec fn declarations_header() -> Seq<char> {
    "// Auto-generated base64 image constants\n// These constants replace inline base64 data for better readability\n\n"@
}

/// The named result of decoding with the standard base64 alphabet and
/// padding: the bytes, or `None` for text that is not valid base64.
pub uninterp spec fn base64_decoded(s: Seq<char>) -> Option<Seq<u8>>;

/// `base64::engine::general_purpose::STANDARD.decode`: the bytes that the
/// text encodes, as `base64_decoded` names them; an error carries the
/// message of the crate's `DecodeError`, which is not stated.
#[verifier::external_body]
fn decode_base64(data: &str) -> (r: Result<Vec<u8>, String>)
    ensures
        match r {
            Ok(v) => base64_decoded(data@) == Some(v@),
            Err(_) => base64_decoded(data@) is None,
        },
{
    base64::engine::general_purpose::STANDARD.decode(data).map_err(|e| e.to_string())
}

/// The import statements that bring the constants or files into a module.
#[derive(Debug, Clone)]
pub enum ImportPlan {
    /// One default import per image: local name and module path.
    Files(Vec<(String, String)>),
    /// Named imports of the constants from one module.
    Named(Vec<String>, String),
}

/// An image file to write: its path and its bytes, or the message of why
/// they could not be had.
#[derive(Debug)]
pub struct ImageFile {
    pub path: String,
    pub contents: Result<Vec<u8>, String>,
}

/// Replaces base64 data URIs by references to extracted images.
#[derive(Debug)]
pub struct XlinkBase64Extractor {
    pub extracted_images: Vec<Base64Image>,
    pub output_dir: Option<String>,
    pub generate_files: bool,
    pub constants_import_path: String,
    pub use_file_imports: bool,
    pub import_prefix: String,
}

impl XlinkBase64Extractor {
    /// An extractor that imports constants from `./base64_images`.
    pub fn new(output_dir: Option<String>, generate_files: bool) -> (r: XlinkBase64Extractor)
        ensures
            r.extracted_images@.len() == 0,
            r.output_dir == output_dir,
            r.generate_files == generate_files,
            r.constants_import_path@ == "./base64_images"@,
            !r.use_file_imports,
            r.import_prefix@ == "@/app/"@,
    {
        Self::new_with_import_path(output_dir, generate_files, owned("./base64_images"))
    }

    /// An extractor that imports constants from `constants_import_path`.
    pub fn new_with_import_path(output_dir: Option<String>, generate_files: bool, constants_import_path: String) -> (r: XlinkBase64Extractor)
        ensures
            r.extracted_images@.len() == 0,
            r.output_dir == output_dir,
            r.generate_files == generate_files,
            r.constants_import_path == constants_import_path,
            !r.use_file_imports,
            r.import_prefix@ == "@/app/"@,
    {
        XlinkBase64Extractor {
            extracted_images: Vec::new(),
            output_dir,
            generate_files,
            constants_import_path,
            use_file_imports: false,
            import_prefix: owned("@/app/"),
        }
    }

    /// An extractor that writes image files and imports each from
    /// `import_prefix`.
    pub fn new_with_file_imports(output_dir: Option<String>, import_prefix: String) -> (r: XlinkBase64Extractor)
        ensures
            r.extracted_images@.len() == 0,
            r.output_dir == output_dir,
            r.generate_files,
            r.constants_import_path@.len() == 0,
            r.use_file_imports,
            r.import_prefix == import_prefix,
    {
        XlinkBase64Extractor {
            extracted_images: Vec::new(),
            output_dir,
            generate_files: true,
            constants_import_path: String::new(),
            use_file_imports: true,
            import_prefix,
        }
    }

    /// The images extracted so far.
    pub fn images(&self) -> (r: &Vec<Base64Image>)
        ensures
            r@ == self.extracted_images@,
    {
        &self.extracted_images
    }

    /// The MIME type, data and file extension of a base64 data URI.
    pub fn extract_base64_data(&self, data_uri: &str) -> (r: Option<(String, String, String)>)
        ensures
            match r {
                Some(t) => data_uri_parts(data_uri@) == Some((t.0@, t.1@, t.2@)),
                None => data_uri_parts(data_uri@) is None,
            },
    {
        if !str_starts_with(data_uri, "data:") {
            return None;
        }
        let chars = crate::text::chars_of(data_uri);
        let mut comma: Vec<char> = Vec::new();
        comma.push(',');
        assert(comma@ == seq![',']);
        let c = match crate::text::find_chars(&chars, &comma) {
            Some(c) => c,
            None => {
                return None;
            },
        };
        let n = chars.len();
        assert(c + 1 <= n);
        let header = data_uri.substring_char(0, c);
        let data = data_uri.substring_char(c + 1, data_uri.unicode_len());
        assert(header@ == data_uri@.take(c as int));
        if !str_contains(header, "base64") {
            return None;
        }
        let hchars = crate::text::chars_of(header);
        let mut semi: Vec<char> = Vec::new();
        semi.push(';');
        assert(semi@ == seq![';']);
        let mime = match crate::text::find_chars(&hchars, &semi) {
            Some(k) => {
                proof {
                    reveal_strlit("data:");
                    if k < 5 {
                        assert(header@.subrange(k as int, k + 1) == seq![';']);
                        assert(header@.subrange(k as int, k + 1)[0] == header@[k as int]);
                        assert(header@[k as int] == ';');
                        assert(header@[k as int] == data_uri@[k as int]);
                        assert(data_uri@.take(5)[k as int] == "data:"@[k as int]);
                    }
                }
                owned(header.substring_char(5, k))
            },
            None => owned("application/octet-stream"),
        };
        let ext = Self::extension_for_mime(mime.as_str());
        Some((mime, owned(data), ext))
    }

    fn extension_for_mime(mime: &str) -> (r: String)
        ensures
            r@ == extension_for(mime@),
    {
        if str_eq(mime, "image/png") {
            owned("png")
        } else if str_eq(mime, "image/jpeg") || str_eq(mime, "image/jpg") {
            owned("jpg")
        } else if str_eq(mime, "image/gif") {
            owned("gif")
        } else if str_eq(mime, "image/svg+xml") {
            owned("svg")
        } else if str_eq(mime, "image/webp") {
            owned("webp")
        } else {
            owned("bin")
        }
    }

    /// The name of the constant for an image with the given UUID.
    pub fn generate_variable_name(uuid: &UuidText) -> (r: String)
        ensures
            r@ == variable_name_for(uuid.simple@),
    {
        cat2("base64Image_", uuid.simple.as_str())
    }

    /// The file an image is written to, if files are generated into an
    /// output directory: the data decoded, or the reason it could not be.
    fn image_file(&self, base64_data: &str, simple: &str, extension: &str) -> (r: Option<ImageFile>)
        ensures
            match r {
                Some(f) => self.output_dir is Some && self.generate_files
                    && f.path@ == image_path(self.output_dir.unwrap()@, simple@, extension@)
                    && decoded_contents(base64_data@, f.contents),
                None => !(self.output_dir is Some && self.generate_files),
            },
    {
        match &self.output_dir {
            Some(dir) => {
                if !self.generate_files {
                    return None;
                }
                let mut name = owned(simple);
                name.append(".");
                name.append(extension);
                let path = crate::paths::join(dir.as_str(), name.as_str());
                let contents = match decode_base64(base64_data) {
                    Ok(bytes) => Ok(bytes),
                    Err(e) => {
                        let m = cat2("Failed to decode base64: ", e.as_str());
                        assert(m@.take("Failed to decode base64: "@.len() as int) =~= "Failed to decode base64: "@);
                        Err(m)
                    },
                };
                Some(ImageFile { path, contents })
            },
            None => None,
        }
    }

    /// Extracts the image of a base64 data URI under a fresh UUID and gives
    /// the name of its constant, with the file to write if files are
    /// generated; other URIs give `None` and change nothing.
    pub fn process_data_uri(&mut self, data_uri: &str) -> (r: Option<(String, Option<ImageFile>)>)
        ensures
            match data_uri_parts(data_uri@) {
                None => r is None && final(self).extracted_images@ == old(self).extracted_images@,
                Some(parts) => r is Some && extracted_as(*old(self), *final(self), parts, r.unwrap()),
            },
            final(self).output_dir == old(self).output_dir,
            final(self).generate_files == old(self).generate_files,
            final(self).constants_import_path == old(self).constants_import_path,
            final(self).use_file_imports == old(self).use_file_imports,
            final(self).import_prefix == old(self).import_prefix,
    {
        match self.extract_base64_data(data_uri) {
            None => None,
            Some((mime_type, data, file_extension)) => {
                let id = new_uuid();
                let variable_name = Self::generate_variable_name(&id);
                let file = self.image_file(data.as_str(), id.simple.as_str(), file_extension.as_str());
                let image = Base64Image { id, mime_type, data, variable_name: variable_name.clone(), file_extension };
                self.extracted_images.push(image);
                assert(self.extracted_images@.drop_last() =~= old(self).extracted_images@);
                Some((variable_name, file))
            },
        }
    }

    /// Visits a JSX attribute with a string value: an `href` or `xlinkHref`
    /// (`xlink:href`) holding a base64 data URI is replaced by the constant
    /// of the extracted image, whose name is given; anything else is left.
    pub fn visit_jsx_attr(&mut self, attr_name: &str, value: &str) -> (r: Option<(String, Option<ImageFile>)>)
        ensures
            is_data_href(attr_name@, value@) ==> match data_uri_parts(value@) {
                None => r is None && final(self).extracted_images@ == old(self).extracted_images@,
                Some(parts) => r is Some && extracted_as(*old(self), *final(self), parts, r.unwrap()),
            },
            !is_data_href(attr_name@, value@) ==> r is None && final(self).extracted_images@ == old(self).extracted_images@,
            final(self).output_dir == old(self).output_dir,
            final(self).generate_files == old(self).generate_files,
            final(self).constants_import_path == old(self).constants_import_path,
            final(self).use_file_imports == old(self).use_file_imports,
            final(self).import_prefix == old(self).import_prefix,
    {
        if (str_eq(attr_name, "xlinkHref") || str_eq(attr_name, "href")) && str_starts_with(value, "data:")
            && str_contains(value, "base64") {
            self.process_data_uri(value)
        } else {
            None
        }
    }

    /// The declarations of the constants of all extracted images, after a
    /// header.
    pub fn generate_typescript_declarations(&self) -> (r: String)
        ensures
            r@ == declarations_header() + declarations_of(self.extracted_images@),
    {
        let mut r = owned(
            "// Auto-generated base64 image constants\n// These constants replace inline base64 data for better readability\n\n",
        );
        let mut i: usize = 0;
        while i < self.extracted_images.len()
            invariant
                i <= self.extracted_images@.len(),
                r@ == declarations_header() + declarations_of(self.extracted_images@.take(i as int)),
            decreases self.extracted_images@.len() - i,
        {
            assert(self.extracted_images@.take(i + 1).drop_last() == self.extracted_images@.take(i as int));
            let img = &self.extracted_images[i];
            r.append("export const ");
            r.append(img.variable_name.as_str());
            r.append(" = \"data:");
            r.append(img.mime_type.as_str());
            r.append(";base64,");
            r.append(img.data.as_str());
            r.append("\";\n");
            i += 1;
        }
        assert(self.extracted_images@.take(self.extracted_images@.len() as int) == self.extracted_images@);
        r
    }

    /// The imports that bring the extracted images into a module, sorted by
    /// constant name: one default import of each image file, or named
    /// imports of the constants; none without images.
    pub fn import_plan(&self) -> (r: Option<ImportPlan>)
        ensures
            self.extracted_images@.len() == 0 ==> r is None,
            self.extracted_images@.len() > 0 ==> r is Some && plan_of(*self, r.unwrap()),
    {
        if self.extracted_images.len() == 0 {
            return None;
        }
        let mut items: Vec<(String, String)> = Vec::new();
        let mut i: usize = 0;
        while i < self.extracted_images.len()
            invariant
                i <= self.extracted_images@.len(),
                items@.len() == i,
                forall|k: int| 0 <= k < i ==> is_file_import(*self, #[trigger] items@[k], self.extracted_images@[k]),
            decreases self.extracted_images@.len() - i,
        {
            let img = &self.extracted_images[i];
            let mut path = self.import_prefix.clone();
            path.append(img.id.simple.as_str());
            path.append(".");
            path.append(img.file_extension.as_str());
            items.push((img.variable_name.clone(), path));
            i += 1;
        }
        let ghost built = items@;
        let sorted = sort_by_key(items);
        if self.use_file_imports {
            Some(ImportPlan::Files(sorted))
        } else {
            let mut names: Vec<String> = Vec::new();
            let mut k: usize = 0;
            while k < sorted.len()
                invariant
                    k <= sorted@.len(),
                    names@.len() == k,
                    forall|m: int| 0 <= m < k ==> (#[trigger] names@[m])@ == sorted@[m].0@,
                decreases sorted@.len() - k,
            {
                names.push(sorted[k].0.clone());
                k += 1;
            }
            assert(named_imports_of(*self, names@)) by {
                assert(sorted@.len() == built.len()) by {
                    vstd::seq_lib::to_multiset_len(sorted@);
                    vstd::seq_lib::to_multiset_len(built);
                }
                assert(is_import_list(*self, built));
            }
            Some(ImportPlan::Named(names, self.constants_import_path.clone()))
        }
    }
}

/// Whether `p` brings the images of `x` into a module.
pub open spec fn plan_of(x: XlinkBase64Extractor, p: ImportPlan) -> bool {
    match p {
        ImportPlan::Files(v) => x.use_file_imports && sorted_by_key(v@) && file_imports_of(x, v@),
        ImportPlan::Named(names, path) => !x.use_file_imports && path == x.constants_import_path
            && named_imports_of(x, names@),
    }
}

/// The path of the file of an image.
pub open spec fn image_path(dir: Seq<char>, simple: Seq<char>, extension: Seq<char>) -> Seq<char> {
    crate::paths::joined_path(Some(dir), simple + "."@ + extension)
}

/// Whether `contents` is the decoding of `data`, or an error that says it
/// could not be decoded.
pub open spec fn decoded_contents(data: Seq<char>, contents: Result<Vec<u8>, String>) -> bool {
    match contents {
        Ok(v) => base64_decoded(data) == Some(v@),
        Err(e) => base64_decoded(data) is None && starts_with(e@, "Failed to decode base64: "@),
    }
}

/// Whether an attribute holds a base64 data URI to extract.
pub open spec fn is_data_href(name: Seq<char>, value: Seq<char>) -> bool {
    (name == "xlinkHref"@ || name == "href"@) && starts_with(value, "data:"@) && contains(value, "base64"@)
}

/// Whether `after` is `before` with one more image, made of `parts` under a
/// fresh UUID, and `r` its constant name and file.
pub open spec fn extracted_as(
    before: XlinkBase64Extractor,
    after: XlinkBase64Extractor,
    parts: (Seq<char>, Seq<char>, Seq<char>),
    r: (String, Option<ImageFile>),
) -> bool {
    let img = after.extracted_images@.last();
    &&& after.extracted_images@.len() == before.extracted_images@.len() + 1
    &&& after.extracted_images@.drop_last() == before.extracted_images@
    &&& well_formed_uuid(img.id)
    &&& img.mime_type@ == parts.0
    &&& img.data@ == parts.1
    &&& img.file_extension@ == parts.2
    &&& img.variable_name@ == variable_name_for(img.id.simple@)
    &&& r.0@ == img.variable_name@
    &&& match r.1 {
        Some(f) => before.output_dir is Some && before.generate_files
            && f.path@ == image_path(before.output_dir.unwrap()@, img.id.simple@, parts.2)
            && decoded_contents(parts.1, f.contents),
        None => !(before.output_dir is Some && before.generate_files),
    }
}

/// Whether `item` is the default import of the file of `img`.
pub open spec fn is_file_import(x: XlinkBase64Extractor, item: (String, String), img: Base64Image) -> bool {
    item.0@ == img.variable_name@ && item.1@ == x.import_prefix@ + img.id.simple@ + "."@ + img.file_extension@
}

/// Whether `items` holds the file imports of the images of `x`, in order.
pub open spec fn is_import_list(x: XlinkBase64Extractor, items: Seq<(String, String)>) -> bool {
    items.len() == x.extracted_images@.len() && forall|k: int|
        0 <= k < items.len() ==> is_file_import(x, #[trigger] items[k], x.extracted_images@[k])
}

/// Whether `v` holds the file imports of the images of `x`, in some order.
pub open spec fn file_imports_of(x: XlinkBase64Extractor, v: Seq<(String, String)>) -> bool {
    exists|items: Seq<(String, String)>| is_import_list(x, items) && v.to_multiset() == items.to_multiset()
}

/// Whether `names` holds the constant names of the images of `x`, sorted.
pub open spec fn named_imports_of(x: XlinkBase64Extractor, names: Seq<String>) -> bool {
    exists|v: Seq<(String, String)>|
        file_imports_of(x, v) && sorted_by_key(v) && names.len() == v.len() && forall|m: int|
            0 <= m < names.len() ==> (#[trigger] names[m])@ == v[m].0@
}

/// The import declarations of a plan: one default import per image file,
/// or one declaration of the named constants.
pub open spec fn plan_decls(p: ImportPlan) -> Seq<(Seq<SpecifierV>, Seq<char>)> {
    match p {
        ImportPlan::Files(v) => v@.map_values(|f: (String, String)| (seq![SpecifierV::Default(f.0@)], f.1@)),
        ImportPlan::Named(names, path) => seq![(names@.map_values(|n: String| SpecifierV::Named(n@)), path@)],
    }
}

impl XlinkBase64Extractor {
    /// Puts the imports of the extracted images before a module's imports:
    /// those of `import_plan`; nothing without images.
    pub fn add_import_statement(&self, imports: &mut Vec<ImportDecl>)
        ensures
            self.extracted_images@.len() == 0 ==> final(imports)@ == old(imports)@,
            self.extracted_images@.len() > 0 ==> exists|p: ImportPlan| plan_of(*self, p)
                && imports_view(final(imports)@) == plan_decls(p) + imports_view(old(imports)@),
    {
        let plan = self.import_plan();
        match plan {
            None => {},
            Some(p) => {
                let ghost pv = p;
                let mut decls: Vec<ImportDecl> = Vec::new();
                match &p {
                    ImportPlan::Files(v) => {
                        let mut i: usize = 0;
                        while i < v.len()
                            invariant
                                i <= v@.len(),
                                imports_view(decls@) == v@.take(i as int).map_values(|f: (String, String)| (seq![SpecifierV::Default(f.0@)], f.1@)),
                            decreases v@.len() - i,
                        {
                            let d = ImportDecl {
                                specifiers: vec![ImportSpecifier::Default(owned(v[i].0.as_str()))],
                                src: owned(v[i].1.as_str()),
                            };
                            assert(import_view(d).0 =~= seq![SpecifierV::Default(v@[i as int].0@)]);
                            let ghost before = decls@;
                            decls.push(d);
                            assert(imports_view(decls@) =~= imports_view(before).push(import_view(d)));
                            assert(v@.take(i + 1) =~= v@.take(i as int).push(v@[i as int]));
                            i += 1;
                        }
                        assert(v@.take(v@.len() as int) =~= v@);
                    },
                    ImportPlan::Named(names, path) => {
                        let mut specs: Vec<ImportSpecifier> = Vec::new();
                        let mut i: usize = 0;
                        while i < names.len()
                            invariant
                                i <= names@.len(),
                                specs@.map_values(|sp: ImportSpecifier| specifier_view(sp)) == names@.take(i as int).map_values(|n: String| SpecifierV::Named(n@)),
                            decreases names@.len() - i,
                        {
                            let sp = ImportSpecifier::Named(owned(names[i].as_str()));
                            let ghost before = specs@;
                            specs.push(sp);
                            assert(specs@.map_values(|sp: ImportSpecifier| specifier_view(sp)) =~= before.map_values(|sp: ImportSpecifier| specifier_view(sp)).push(specifier_view(sp)));
                            assert(names@.take(i + 1) =~= names@.take(i as int).push(names@[i as int]));
                            i += 1;
                        }
                        assert(names@.take(names@.len() as int) =~= names@);
                        let d = ImportDecl { specifiers: specs, src: owned(path.as_str()) };
                        decls.push(d);
                        assert(imports_view(decls@) =~= seq![import_view(d)]);
                    },
                }
                assert(imports_view(decls@) == plan_decls(pv));
                prepend_imports(imports, decls);
            },
        }
    }
}

} // verus!
