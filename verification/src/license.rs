use vstd::prelude::*;
use vstd::string::*;

use crate::plan::{file_at, push_file, FileModel, OutFile};
use crate::text::{i32_to_string, int_str};

verus! {

/// The MIT license text for one year and one holder.
pub open spec fn mit_text(year: Seq<char>, full_name: Seq<char>) -> Seq<char> {
    "MIT License\n\nCopyright (c) "@ + year + " "@ + full_name
        + "\n\nPermission is granted, free of charge, to any person obtaining a copy of\nthis software and associated documentation files, to deal in the software\nwithout restriction, including the rights to use, copy, modify, merge,\npublish, distribute, sublicense, and/or sell copies of it, provided that\nthe above copyright notice and this permission notice appear in all copies\nor substantial portions of the software.\n\nTHE SOFTWARE IS PROVIDED \"AS IS\", WITHOUT WARRANTY OF ANY KIND, EXPRESS OR\nIMPLIED, INCLUDING BUT NOT LIMITED TO THE WARRANTIES OF MERCHANTABILITY,\nFITNESS FOR A PARTICULAR PURPOSE AND NONINFRINGEMENT. IN NO EVENT SHALL THE\nAUTHORS BE LIABLE FOR ANY CLAIM, DAMAGES OR OTHER LIABILITY ARISING FROM THE\nSOFTWARE OR ITS USE.\n"@
}

/// The Apache-2.0 license notice for one year and one holder.
pub open spec fn apache_text(year: Seq<char>, full_name: Seq<char>) -> Seq<char> {
    "Copyright "@ + year + " "@ + full_name
        + "\n\nLicensed under the Apache License, Version 2.0 (the \"License\").\nThis file may not be used except in compliance with the License; a copy\nof the License can be obtained at\n\n    http://www.apache.org/licenses/LICENSE-2.0\n\nSoftware distributed under the License is distributed on an \"AS IS\"\nBASIS, WITHOUT WARRANTIES OR CONDITIONS OF ANY KIND, either express or\nimplied. See the License for the language that governs permissions and\nlimitations under the License.\n"@
}

/// Writes out the MIT license for one year and one holder.
pub fn mit_license(year: &str, full_name: &str) -> (r: String)
    ensures
        r@ == mit_text(year@, full_name@),
{
    let mut r = String::from_str("MIT License\n\nCopyright (c) ");
    r.append(year);
    r.append(" ");
    r.append(full_name);
    r.append(
        "\n\nPermission is granted, free of charge, to any person obtaining a copy of\nthis software and associated documentation files, to deal in the software\nwithout restriction, including the rights to use, copy, modify, merge,\npublish, distribute, sublicense, and/or sell copies of it, provided that\nthe above copyright notice and this permission notice appear in all copies\nor substantial portions of the software.\n\nTHE SOFTWARE IS PROVIDED \"AS IS\", WITHOUT WARRANTY OF ANY KIND, EXPRESS OR\nIMPLIED, INCLUDING BUT NOT LIMITED TO THE WARRANTIES OF MERCHANTABILITY,\nFITNESS FOR A PARTICULAR PURPOSE AND NONINFRINGEMENT. IN NO EVENT SHALL THE\nAUTHORS BE LIABLE FOR ANY CLAIM, DAMAGES OR OTHER LIABILITY ARISING FROM THE\nSOFTWARE OR ITS USE.\n",
    );
    r
}

/// Writes out the Apache-2.0 notice for one year and one holder.
pub fn apache_license(year: &str, full_name: &str) -> (r: String)
    ensures
        r@ == apache_text(year@, full_name@),
{
    let mut r = String::from_str("Copyright ");
    r.append(year);
    r.append(" ");
    r.append(full_name);
    r.append(
        "\n\nLicensed under the Apache License, Version 2.0 (the \"License\").\nThis file may not be used except in compliance with the License; a copy\nof the License can be obtained at\n\n    http://www.apache.org/licenses/LICENSE-2.0\n\nSoftware distributed under the License is distributed on an \"AS IS\"\nBASIS, WITHOUT WARRANTIES OR CONDITIONS OF ANY KIND, either express or\nimplied. See the License for the language that governs permissions and\nlimitations under the License.\n",
    );
    r
}

/// The name the licenses carry: the given one, or the author's.
pub open spec fn licensee(full_name: Option<Seq<char>>) -> Seq<char> {
    match full_name {
        Some(name) => name,
        None => "Yohan Boogaert"@,
    }
}

/// The two license files written into `dir` for one year and one holder.
pub open spec fn license_files(dir: Seq<char>, year: int, name: Seq<char>) -> Seq<FileModel> {
    seq![
        file_at(dir + "/LICENSE.MIT"@, mit_text(int_str(year), name)),
        file_at(dir + "/LICENSE.Apache-2.0"@, apache_text(int_str(year), name)),
    ]
}

/// Lays out the MIT and Apache-2.0 license files under `project_dir`,
/// dated `year` and naming `full_name` (or the author when none is
/// given).
pub fn add_licenses(project_dir: &str, year: i32, full_name: Option<String>) -> (r: Vec<OutFile>)
    ensures
        r.deep_view() == license_files(project_dir@, year as int, licensee(full_name.deep_view())),
{
    let name = match full_name {
        Some(name) => name,
        None => String::from_str("Yohan Boogaert"),
    };
    let year_string = i32_to_string(year);

    let mut files: Vec<OutFile> = Vec::new();
    proof {
        assert(files.deep_view() =~= Seq::<FileModel>::empty());
    }

    let mut mit_path = String::from_str(project_dir);
    mit_path.append("/LICENSE.MIT");
    let mit = mit_license(year_string.as_str(), name.as_str());
    push_file(&mut files, OutFile::new(mit_path, mit));

    let mut apache_path = String::from_str(project_dir);
    apache_path.append("/LICENSE.Apache-2.0");
    let apache = apache_license(year_string.as_str(), name.as_str());
    push_file(&mut files, OutFile::new(apache_path, apache));

    proof {
        assert(files.deep_view() =~= license_files(
            project_dir@,
            year as int,
            licensee(full_name.deep_view()),
        ));
    }
    files
}

/// Relies on chrono's `Local::now` and `Datelike::year`: the year of the
/// local date at the moment of the call. Nothing more is promised of a
/// clock reading.
#[verifier::external_body]
pub(crate) fn current_year() -> (r: i32) {
    chrono::Datelike::year(&chrono::Local::now())
}

/// Lays out the two license files dated with the current year.
pub fn add_licenses_now(project_dir: &str, full_name: Option<String>) -> (r: Vec<OutFile>)
    ensures
        exists|year: int|
            r.deep_view() == license_files(
                project_dir@,
                year,
                licensee(full_name.deep_view()),
            ),
{
    let year = current_year();
    let files = add_licenses(project_dir, year, full_name);
    proof {
        assert(files.deep_view() == license_files(
            project_dir@,
            year as int,
            licensee(full_name.deep_view()),
        ));
    }
    files
}

} // verus!
