//! The TypeScript declaration files bundled with the compiler host, looked up by
//! the name the compiler asks for.
use vstd::prelude::*;

use crate::text::{chars_equal, chars_of};

verus! {

/// A declaration file bundled with the compiler host.
#[derive(Clone, Copy, Debug, PartialEq, Eq, Structural)]
pub enum Asset {
    /// `lib.deno_core.d.ts`
    LibDenoCore,
    /// `lib.esnext.d.ts`
    LibEsnext,
    /// `lib.es2019.d.ts`
    LibEs2019,
    /// `lib.es2018.d.ts`
    LibEs2018,
    /// `lib.es2017.d.ts`
    LibEs2017,
    /// `lib.es2016.d.ts`
    LibEs2016,
    /// `lib.es5.d.ts`
    LibEs5,
    /// `lib.es2015.d.ts`
    LibEs2015,
    /// `lib.es2015.core.d.ts`
    LibEs2015Core,
    /// `lib.es2015.collection.d.ts`
    LibEs2015Collection,
    /// `lib.es2015.generator.d.ts`
    LibEs2015Generator,
    /// `lib.es2015.iterable.d.ts`
    LibEs2015Iterable,
    /// `lib.es2015.promise.d.ts`
    LibEs2015Promise,
    /// `lib.es2015.symbol.d.ts`
    LibEs2015Symbol,
    /// `lib.es2015.proxy.d.ts`
    LibEs2015Proxy,
    /// `lib.es2015.symbol.wellknown.d.ts`
    LibEs2015SymbolWellknown,
    /// `lib.es2015.reflect.d.ts`
    LibEs2015Reflect,
    /// `lib.es2016.array.include.d.ts`
    LibEs2016ArrayInclude,
    /// `lib.es2017.object.d.ts`
    LibEs2017Object,
    /// `lib.es2017.sharedmemory.d.ts`
    LibEs2017Sharedmemory,
    /// `lib.es2017.string.d.ts`
    LibEs2017String,
    /// `lib.es2017.intl.d.ts`
    LibEs2017Intl,
    /// `lib.es2017.typedarrays.d.ts`
    LibEs2017Typedarrays,
    /// `lib.es2018.asynciterable.d.ts`
    LibEs2018Asynciterable,
    /// `lib.es2018.promise.d.ts`
    LibEs2018Promise,
    /// `lib.es2018.regexp.d.ts`
    LibEs2018Regexp,
    /// `lib.es2018.intl.d.ts`
    LibEs2018Intl,
    /// `lib.es2019.array.d.ts`
    LibEs2019Array,
    /// `lib.es2019.object.d.ts`
    LibEs2019Object,
    /// `lib.es2019.string.d.ts`
    LibEs2019String,
    /// `lib.es2019.symbol.d.ts`
    LibEs2019Symbol,
    /// `lib.esnext.bigint.d.ts`
    LibEsnextBigint,
    /// `lib.esnext.intl.d.ts`
    LibEsnextIntl,
}

/// How many declaration files are bundled.
pub const ASSET_COUNT: usize = 33;

/// The file name under which the compiler asks for an asset.
pub open spec fn asset_file_name(a: Asset) -> Seq<char> {
    match a {
        Asset::LibDenoCore => "lib.deno_core.d.ts"@,
        Asset::LibEsnext => "lib.esnext.d.ts"@,
        Asset::LibEs2019 => "lib.es2019.d.ts"@,
        Asset::LibEs2018 => "lib.es2018.d.ts"@,
        Asset::LibEs2017 => "lib.es2017.d.ts"@,
        Asset::LibEs2016 => "lib.es2016.d.ts"@,
        Asset::LibEs5 => "lib.es5.d.ts"@,
        Asset::LibEs2015 => "lib.es2015.d.ts"@,
        Asset::LibEs2015Core => "lib.es2015.core.d.ts"@,
        Asset::LibEs2015Collection => "lib.es2015.collection.d.ts"@,
        Asset::LibEs2015Generator => "lib.es2015.generator.d.ts"@,
        Asset::LibEs2015Iterable => "lib.es2015.iterable.d.ts"@,
        Asset::LibEs2015Promise => "lib.es2015.promise.d.ts"@,
        Asset::LibEs2015Symbol => "lib.es2015.symbol.d.ts"@,
        Asset::LibEs2015Proxy => "lib.es2015.proxy.d.ts"@,
        Asset::LibEs2015SymbolWellknown => "lib.es2015.symbol.wellknown.d.ts"@,
        Asset::LibEs2015Reflect => "lib.es2015.reflect.d.ts"@,
        Asset::LibEs2016ArrayInclude => "lib.es2016.array.include.d.ts"@,
        Asset::LibEs2017Object => "lib.es2017.object.d.ts"@,
        Asset::LibEs2017Sharedmemory => "lib.es2017.sharedmemory.d.ts"@,
        Asset::LibEs2017String => "lib.es2017.string.d.ts"@,
        Asset::LibEs2017Intl => "lib.es2017.intl.d.ts"@,
        Asset::LibEs2017Typedarrays => "lib.es2017.typedarrays.d.ts"@,
        Asset::LibEs2018Asynciterable => "lib.es2018.asynciterable.d.ts"@,
        Asset::LibEs2018Promise => "lib.es2018.promise.d.ts"@,
        Asset::LibEs2018Regexp => "lib.es2018.regexp.d.ts"@,
        Asset::LibEs2018Intl => "lib.es2018.intl.d.ts"@,
        Asset::LibEs2019Array => "lib.es2019.array.d.ts"@,
        Asset::LibEs2019Object => "lib.es2019.object.d.ts"@,
        Asset::LibEs2019String => "lib.es2019.string.d.ts"@,
        Asset::LibEs2019Symbol => "lib.es2019.symbol.d.ts"@,
        Asset::LibEsnextBigint => "lib.esnext.bigint.d.ts"@,
        Asset::LibEsnextIntl => "lib.esnext.intl.d.ts"@,
    }
}

/// The place of an asset in the bundled list.
pub open spec fn asset_index(a: Asset) -> nat {
    match a {
        Asset::LibDenoCore => 0,
        Asset::LibEsnext => 1,
        Asset::LibEs2019 => 2,
        Asset::LibEs2018 => 3,
        Asset::LibEs2017 => 4,
        Asset::LibEs2016 => 5,
        Asset::LibEs5 => 6,
        Asset::LibEs2015 => 7,
        Asset::LibEs2015Core => 8,
        Asset::LibEs2015Collection => 9,
        Asset::LibEs2015Generator => 10,
        Asset::LibEs2015Iterable => 11,
        Asset::LibEs2015Promise => 12,
        Asset::LibEs2015Symbol => 13,
        Asset::LibEs2015Proxy => 14,
        Asset::LibEs2015SymbolWellknown => 15,
        Asset::LibEs2015Reflect => 16,
        Asset::LibEs2016ArrayInclude => 17,
        Asset::LibEs2017Object => 18,
        Asset::LibEs2017Sharedmemory => 19,
        Asset::LibEs2017String => 20,
        Asset::LibEs2017Intl => 21,
        Asset::LibEs2017Typedarrays => 22,
        Asset::LibEs2018Asynciterable => 23,
        Asset::LibEs2018Promise => 24,
        Asset::LibEs2018Regexp => 25,
        Asset::LibEs2018Intl => 26,
        Asset::LibEs2019Array => 27,
        Asset::LibEs2019Object => 28,
        Asset::LibEs2019String => 29,
        Asset::LibEs2019Symbol => 30,
        Asset::LibEsnextBigint => 31,
        Asset::LibEsnextIntl => 32,
    }
}

/// The asset at place `i` of the bundled list.
pub open spec fn asset_at(i: nat) -> Asset {
    if i == 0 {
        Asset::LibDenoCore
    } else if i == 1 {
        Asset::LibEsnext
    } else if i == 2 {
        Asset::LibEs2019
    } else if i == 3 {
        Asset::LibEs2018
    } else if i == 4 {
        Asset::LibEs2017
    } else if i == 5 {
        Asset::LibEs2016
    } else if i == 6 {
        Asset::LibEs5
    } else if i == 7 {
        Asset::LibEs2015
    } else if i == 8 {
        Asset::LibEs2015Core
    } else if i == 9 {
        Asset::LibEs2015Collection
    } else if i == 10 {
        Asset::LibEs2015Generator
    } else if i == 11 {
        Asset::LibEs2015Iterable
    } else if i == 12 {
        Asset::LibEs2015Promise
    } else if i == 13 {
        Asset::LibEs2015Symbol
    } else if i == 14 {
        Asset::LibEs2015Proxy
    } else if i == 15 {
        Asset::LibEs2015SymbolWellknown
    } else if i == 16 {
        Asset::LibEs2015Reflect
    } else if i == 17 {
        Asset::LibEs2016ArrayInclude
    } else if i == 18 {
        Asset::LibEs2017Object
    } else if i == 19 {
        Asset::LibEs2017Sharedmemory
    } else if i == 20 {
        Asset::LibEs2017String
    } else if i == 21 {
        Asset::LibEs2017Intl
    } else if i == 22 {
        Asset::LibEs2017Typedarrays
    } else if i == 23 {
        Asset::LibEs2018Asynciterable
    } else if i == 24 {
        Asset::LibEs2018Promise
    } else if i == 25 {
        Asset::LibEs2018Regexp
    } else if i == 26 {
        Asset::LibEs2018Intl
    } else if i == 27 {
        Asset::LibEs2019Array
    } else if i == 28 {
        Asset::LibEs2019Object
    } else if i == 29 {
        Asset::LibEs2019String
    } else if i == 30 {
        Asset::LibEs2019Symbol
    } else if i == 31 {
        Asset::LibEsnextBigint
    } else {
        Asset::LibEsnextIntl
    }
}

/// Whether `name` is the file name of a bundled asset.
pub open spec fn is_asset_name(name: Seq<char>) -> bool {
    exists|a: Asset| asset_file_name(a) == name
}

/// The place in the bundled list of the asset whose file name is `s`, read off the
/// length of `s` and a few of its characters.
pub open spec fn name_index(s: Seq<char>) -> nat {
    if s.len() == 12 {
        6
    } else if s.len() == 15 {
        if s[9] == '5' {
            7
        } else if s[9] == '6' {
            5
        } else if s[9] == '7' {
            4
        } else if s[9] == '8' {
            3
        } else if s[9] == '9' {
            2
        } else {
            1
        }
    } else if s.len() == 18 {
        0
    } else if s.len() == 20 {
        if s[9] == '5' {
            8
        } else if s[9] == '7' {
            21
        } else if s[9] == '8' {
            26
        } else {
            32
        }
    } else if s.len() == 21 {
        if s[9] == '5' {
            14
        } else {
            27
        }
    } else if s.len() == 22 {
        if s[9] == '5' {
            13
        } else if s[9] == '7' {
            if s[11] == 'o' {
                18
            } else {
                20
            }
        } else if s[9] == '8' {
            25
        } else if s[9] == '9' {
            if s[12] == 'b' {
                28
            } else if s[12] == 't' {
                29
            } else {
                30
            }
        } else {
            31
        }
    } else if s.len() == 23 {
        if s[9] == '5' {
            if s[11] == 'p' {
                12
            } else {
                16
            }
        } else {
            24
        }
    } else if s.len() == 24 {
        11
    } else if s.len() == 25 {
        10
    } else if s.len() == 26 {
        9
    } else if s.len() == 27 {
        22
    } else if s.len() == 28 {
        19
    } else if s.len() == 29 {
        if s[9] == '6' {
            17
        } else {
            23
        }
    } else {
        15
    }
}

/// An asset's file name tells its place in the bundled list.
pub proof fn lemma_name_index(a: Asset)
    ensures
        name_index(asset_file_name(a)) == asset_index(a),
{
    match a {
        Asset::LibDenoCore => {
            reveal_strlit("lib.deno_core.d.ts");
        },
        Asset::LibEsnext => {
            reveal_strlit("lib.esnext.d.ts");
        },
        Asset::LibEs2019 => {
            reveal_strlit("lib.es2019.d.ts");
        },
        Asset::LibEs2018 => {
            reveal_strlit("lib.es2018.d.ts");
        },
        Asset::LibEs2017 => {
            reveal_strlit("lib.es2017.d.ts");
        },
        Asset::LibEs2016 => {
            reveal_strlit("lib.es2016.d.ts");
        },
        Asset::LibEs5 => {
            reveal_strlit("lib.es5.d.ts");
        },
        Asset::LibEs2015 => {
            reveal_strlit("lib.es2015.d.ts");
        },
        Asset::LibEs2015Core => {
            reveal_strlit("lib.es2015.core.d.ts");
        },
        Asset::LibEs2015Collection => {
            reveal_strlit("lib.es2015.collection.d.ts");
        },
        Asset::LibEs2015Generator => {
            reveal_strlit("lib.es2015.generator.d.ts");
        },
        Asset::LibEs2015Iterable => {
            reveal_strlit("lib.es2015.iterable.d.ts");
        },
        Asset::LibEs2015Promise => {
            reveal_strlit("lib.es2015.promise.d.ts");
        },
        Asset::LibEs2015Symbol => {
            reveal_strlit("lib.es2015.symbol.d.ts");
        },
        Asset::LibEs2015Proxy => {
            reveal_strlit("lib.es2015.proxy.d.ts");
        },
        Asset::LibEs2015SymbolWellknown => {
            reveal_strlit("lib.es2015.symbol.wellknown.d.ts");
        },
        Asset::LibEs2015Reflect => {
            reveal_strlit("lib.es2015.reflect.d.ts");
        },
        Asset::LibEs2016ArrayInclude => {
            reveal_strlit("lib.es2016.array.include.d.ts");
        },
        Asset::LibEs2017Object => {
            reveal_strlit("lib.es2017.object.d.ts");
        },
        Asset::LibEs2017Sharedmemory => {
            reveal_strlit("lib.es2017.sharedmemory.d.ts");
        },
        Asset::LibEs2017String => {
            reveal_strlit("lib.es2017.string.d.ts");
        },
        Asset::LibEs2017Intl => {
            reveal_strlit("lib.es2017.intl.d.ts");
        },
        Asset::LibEs2017Typedarrays => {
            reveal_strlit("lib.es2017.typedarrays.d.ts");
        },
        Asset::LibEs2018Asynciterable => {
            reveal_strlit("lib.es2018.asynciterable.d.ts");
        },
        Asset::LibEs2018Promise => {
            reveal_strlit("lib.es2018.promise.d.ts");
        },
        Asset::LibEs2018Regexp => {
            reveal_strlit("lib.es2018.regexp.d.ts");
        },
        Asset::LibEs2018Intl => {
            reveal_strlit("lib.es2018.intl.d.ts");
        },
        Asset::LibEs2019Array => {
            reveal_strlit("lib.es2019.array.d.ts");
        },
        Asset::LibEs2019Object => {
            reveal_strlit("lib.es2019.object.d.ts");
        },
        Asset::LibEs2019String => {
            reveal_strlit("lib.es2019.string.d.ts");
        },
        Asset::LibEs2019Symbol => {
            reveal_strlit("lib.es2019.symbol.d.ts");
        },
        Asset::LibEsnextBigint => {
            reveal_strlit("lib.esnext.bigint.d.ts");
        },
        Asset::LibEsnextIntl => {
            reveal_strlit("lib.esnext.intl.d.ts");
        },
    }
}

/// Each bundled asset is the TypeScript library declaration file of its name: the
/// compiler asks for it under exactly that file name.
pub proof fn lemma_asset_file_names()
    ensures
        asset_file_name(Asset::LibDenoCore) == "lib.deno_core.d.ts"@,
        asset_file_name(Asset::LibEsnext) == "lib.esnext.d.ts"@,
        asset_file_name(Asset::LibEs2019) == "lib.es2019.d.ts"@,
        asset_file_name(Asset::LibEs2018) == "lib.es2018.d.ts"@,
        asset_file_name(Asset::LibEs2017) == "lib.es2017.d.ts"@,
        asset_file_name(Asset::LibEs2016) == "lib.es2016.d.ts"@,
        asset_file_name(Asset::LibEs5) == "lib.es5.d.ts"@,
        asset_file_name(Asset::LibEs2015) == "lib.es2015.d.ts"@,
        asset_file_name(Asset::LibEs2015Core) == "lib.es2015.core.d.ts"@,
        asset_file_name(Asset::LibEs2015Collection) == "lib.es2015.collection.d.ts"@,
        asset_file_name(Asset::LibEs2015Generator) == "lib.es2015.generator.d.ts"@,
        asset_file_name(Asset::LibEs2015Iterable) == "lib.es2015.iterable.d.ts"@,
        asset_file_name(Asset::LibEs2015Promise) == "lib.es2015.promise.d.ts"@,
        asset_file_name(Asset::LibEs2015Symbol) == "lib.es2015.symbol.d.ts"@,
        asset_file_name(Asset::LibEs2015Proxy) == "lib.es2015.proxy.d.ts"@,
        asset_file_name(Asset::LibEs2015SymbolWellknown) == "lib.es2015.symbol.wellknown.d.ts"@,
        asset_file_name(Asset::LibEs2015Reflect) == "lib.es2015.reflect.d.ts"@,
        asset_file_name(Asset::LibEs2016ArrayInclude) == "lib.es2016.array.include.d.ts"@,
        asset_file_name(Asset::LibEs2017Object) == "lib.es2017.object.d.ts"@,
        asset_file_name(Asset::LibEs2017Sharedmemory) == "lib.es2017.sharedmemory.d.ts"@,
        asset_file_name(Asset::LibEs2017String) == "lib.es2017.string.d.ts"@,
        asset_file_name(Asset::LibEs2017Intl) == "lib.es2017.intl.d.ts"@,
        asset_file_name(Asset::LibEs2017Typedarrays) == "lib.es2017.typedarrays.d.ts"@,
        asset_file_name(Asset::LibEs2018Asynciterable) == "lib.es2018.asynciterable.d.ts"@,
        asset_file_name(Asset::LibEs2018Promise) == "lib.es2018.promise.d.ts"@,
        asset_file_name(Asset::LibEs2018Regexp) == "lib.es2018.regexp.d.ts"@,
        asset_file_name(Asset::LibEs2018Intl) == "lib.es2018.intl.d.ts"@,
        asset_file_name(Asset::LibEs2019Array) == "lib.es2019.array.d.ts"@,
        asset_file_name(Asset::LibEs2019Object) == "lib.es2019.object.d.ts"@,
        asset_file_name(Asset::LibEs2019String) == "lib.es2019.string.d.ts"@,
        asset_file_name(Asset::LibEs2019Symbol) == "lib.es2019.symbol.d.ts"@,
        asset_file_name(Asset::LibEsnextBigint) == "lib.esnext.bigint.d.ts"@,
        asset_file_name(Asset::LibEsnextIntl) == "lib.esnext.intl.d.ts"@,
{
}

/// No asset's file name holds a `$`, so none holds the asset prefix.
pub proof fn lemma_asset_name_has_no_dollar(a: Asset)
    ensures
        forall|i: int| 0 <= i < asset_file_name(a).len() ==> #[trigger] asset_file_name(a)[i] != '$',
{
    match a {
        Asset::LibDenoCore => {
            reveal_strlit("lib.deno_core.d.ts");
        },
        Asset::LibEsnext => {
            reveal_strlit("lib.esnext.d.ts");
        },
        Asset::LibEs2019 => {
            reveal_strlit("lib.es2019.d.ts");
        },
        Asset::LibEs2018 => {
            reveal_strlit("lib.es2018.d.ts");
        },
        Asset::LibEs2017 => {
            reveal_strlit("lib.es2017.d.ts");
        },
        Asset::LibEs2016 => {
            reveal_strlit("lib.es2016.d.ts");
        },
        Asset::LibEs5 => {
            reveal_strlit("lib.es5.d.ts");
        },
        Asset::LibEs2015 => {
            reveal_strlit("lib.es2015.d.ts");
        },
        Asset::LibEs2015Core => {
            reveal_strlit("lib.es2015.core.d.ts");
        },
        Asset::LibEs2015Collection => {
            reveal_strlit("lib.es2015.collection.d.ts");
        },
        Asset::LibEs2015Generator => {
            reveal_strlit("lib.es2015.generator.d.ts");
        },
        Asset::LibEs2015Iterable => {
            reveal_strlit("lib.es2015.iterable.d.ts");
        },
        Asset::LibEs2015Promise => {
            reveal_strlit("lib.es2015.promise.d.ts");
        },
        Asset::LibEs2015Symbol => {
            reveal_strlit("lib.es2015.symbol.d.ts");
        },
        Asset::LibEs2015Proxy => {
            reveal_strlit("lib.es2015.proxy.d.ts");
        },
        Asset::LibEs2015SymbolWellknown => {
            reveal_strlit("lib.es2015.symbol.wellknown.d.ts");
        },
        Asset::LibEs2015Reflect => {
            reveal_strlit("lib.es2015.reflect.d.ts");
        },
        Asset::LibEs2016ArrayInclude => {
            reveal_strlit("lib.es2016.array.include.d.ts");
        },
        Asset::LibEs2017Object => {
            reveal_strlit("lib.es2017.object.d.ts");
        },
        Asset::LibEs2017Sharedmemory => {
            reveal_strlit("lib.es2017.sharedmemory.d.ts");
        },
        Asset::LibEs2017String => {
            reveal_strlit("lib.es2017.string.d.ts");
        },
        Asset::LibEs2017Intl => {
            reveal_strlit("lib.es2017.intl.d.ts");
        },
        Asset::LibEs2017Typedarrays => {
            reveal_strlit("lib.es2017.typedarrays.d.ts");
        },
        Asset::LibEs2018Asynciterable => {
            reveal_strlit("lib.es2018.asynciterable.d.ts");
        },
        Asset::LibEs2018Promise => {
            reveal_strlit("lib.es2018.promise.d.ts");
        },
        Asset::LibEs2018Regexp => {
            reveal_strlit("lib.es2018.regexp.d.ts");
        },
        Asset::LibEs2018Intl => {
            reveal_strlit("lib.es2018.intl.d.ts");
        },
        Asset::LibEs2019Array => {
            reveal_strlit("lib.es2019.array.d.ts");
        },
        Asset::LibEs2019Object => {
            reveal_strlit("lib.es2019.object.d.ts");
        },
        Asset::LibEs2019String => {
            reveal_strlit("lib.es2019.string.d.ts");
        },
        Asset::LibEs2019Symbol => {
            reveal_strlit("lib.es2019.symbol.d.ts");
        },
        Asset::LibEsnextBigint => {
            reveal_strlit("lib.esnext.bigint.d.ts");
        },
        Asset::LibEsnextIntl => {
            reveal_strlit("lib.esnext.intl.d.ts");
        },
    }
}

/// No two bundled assets share a file name.
pub proof fn lemma_asset_names_distinct(a: Asset, b: Asset)
    ensures
        asset_file_name(a) == asset_file_name(b) ==> a == b,
{
    lemma_name_index(a);
    lemma_name_index(b);
    lemma_asset_listed(a);
    lemma_asset_listed(b);
}

/// Every asset stands in the bundled list, at its own place.
pub proof fn lemma_asset_listed(a: Asset)
    ensures
        asset_index(a) < ASSET_COUNT,
        asset_at(asset_index(a)) == a,
{
}

impl Asset {
    /// The file name under which the compiler asks for this asset.
    pub fn file_name(&self) -> (r: &'static str)
        ensures
            r@ == asset_file_name(*self),
    {
        match self {
            Asset::LibDenoCore => "lib.deno_core.d.ts",
            Asset::LibEsnext => "lib.esnext.d.ts",
            Asset::LibEs2019 => "lib.es2019.d.ts",
            Asset::LibEs2018 => "lib.es2018.d.ts",
            Asset::LibEs2017 => "lib.es2017.d.ts",
            Asset::LibEs2016 => "lib.es2016.d.ts",
            Asset::LibEs5 => "lib.es5.d.ts",
            Asset::LibEs2015 => "lib.es2015.d.ts",
            Asset::LibEs2015Core => "lib.es2015.core.d.ts",
            Asset::LibEs2015Collection => "lib.es2015.collection.d.ts",
            Asset::LibEs2015Generator => "lib.es2015.generator.d.ts",
            Asset::LibEs2015Iterable => "lib.es2015.iterable.d.ts",
            Asset::LibEs2015Promise => "lib.es2015.promise.d.ts",
            Asset::LibEs2015Symbol => "lib.es2015.symbol.d.ts",
            Asset::LibEs2015Proxy => "lib.es2015.proxy.d.ts",
            Asset::LibEs2015SymbolWellknown => "lib.es2015.symbol.wellknown.d.ts",
            Asset::LibEs2015Reflect => "lib.es2015.reflect.d.ts",
            Asset::LibEs2016ArrayInclude => "lib.es2016.array.include.d.ts",
            Asset::LibEs2017Object => "lib.es2017.object.d.ts",
            Asset::LibEs2017Sharedmemory => "lib.es2017.sharedmemory.d.ts",
            Asset::LibEs2017String => "lib.es2017.string.d.ts",
            Asset::LibEs2017Intl => "lib.es2017.intl.d.ts",
            Asset::LibEs2017Typedarrays => "lib.es2017.typedarrays.d.ts",
            Asset::LibEs2018Asynciterable => "lib.es2018.asynciterable.d.ts",
            Asset::LibEs2018Promise => "lib.es2018.promise.d.ts",
            Asset::LibEs2018Regexp => "lib.es2018.regexp.d.ts",
            Asset::LibEs2018Intl => "lib.es2018.intl.d.ts",
            Asset::LibEs2019Array => "lib.es2019.array.d.ts",
            Asset::LibEs2019Object => "lib.es2019.object.d.ts",
            Asset::LibEs2019String => "lib.es2019.string.d.ts",
            Asset::LibEs2019Symbol => "lib.es2019.symbol.d.ts",
            Asset::LibEsnextBigint => "lib.esnext.bigint.d.ts",
            Asset::LibEsnextIntl => "lib.esnext.intl.d.ts",
        }
    }

    /// The asset at place `i` of the bundled list.
    pub fn at(i: usize) -> (r: Asset)
        requires
            i < ASSET_COUNT,
        ensures
            r == asset_at(i as nat),
    {
        if i == 0 {
            Asset::LibDenoCore
        } else if i == 1 {
            Asset::LibEsnext
        } else if i == 2 {
            Asset::LibEs2019
        } else if i == 3 {
            Asset::LibEs2018
        } else if i == 4 {
            Asset::LibEs2017
        } else if i == 5 {
            Asset::LibEs2016
        } else if i == 6 {
            Asset::LibEs5
        } else if i == 7 {
            Asset::LibEs2015
        } else if i == 8 {
            Asset::LibEs2015Core
        } else if i == 9 {
            Asset::LibEs2015Collection
        } else if i == 10 {
            Asset::LibEs2015Generator
        } else if i == 11 {
            Asset::LibEs2015Iterable
        } else if i == 12 {
            Asset::LibEs2015Promise
        } else if i == 13 {
            Asset::LibEs2015Symbol
        } else if i == 14 {
            Asset::LibEs2015Proxy
        } else if i == 15 {
            Asset::LibEs2015SymbolWellknown
        } else if i == 16 {
            Asset::LibEs2015Reflect
        } else if i == 17 {
            Asset::LibEs2016ArrayInclude
        } else if i == 18 {
            Asset::LibEs2017Object
        } else if i == 19 {
            Asset::LibEs2017Sharedmemory
        } else if i == 20 {
            Asset::LibEs2017String
        } else if i == 21 {
            Asset::LibEs2017Intl
        } else if i == 22 {
            Asset::LibEs2017Typedarrays
        } else if i == 23 {
            Asset::LibEs2018Asynciterable
        } else if i == 24 {
            Asset::LibEs2018Promise
        } else if i == 25 {
            Asset::LibEs2018Regexp
        } else if i == 26 {
            Asset::LibEs2018Intl
        } else if i == 27 {
            Asset::LibEs2019Array
        } else if i == 28 {
            Asset::LibEs2019Object
        } else if i == 29 {
            Asset::LibEs2019String
        } else if i == 30 {
            Asset::LibEs2019Symbol
        } else if i == 31 {
            Asset::LibEsnextBigint
        } else {
            Asset::LibEsnextIntl
        }
    }
}

/// The bundled asset whose file name is `name`, if there is one.
pub fn find_asset(name: &str) -> (r: Option<Asset>)
    ensures
        r matches Some(a) ==> asset_file_name(a) == name@,
        r is None <==> !is_asset_name(name@),
        forall|a: Asset| #[trigger] asset_file_name(a) == name@ ==> r == Some(a),
{
    let cs = chars_of(name);
    let mut i: usize = 0;
    while i < ASSET_COUNT
        invariant
            i <= ASSET_COUNT,
            cs@ == name@,
            forall|j: nat| j < i ==> asset_file_name(#[trigger] asset_at(j)) != name@,
        decreases ASSET_COUNT - i,
    {
        let a = Asset::at(i);
        let fname = chars_of(a.file_name());
        if chars_equal(cs.as_slice(), fname.as_slice()) {
            proof {
                assert forall|b: Asset| #[trigger] asset_file_name(b) == name@ implies Some(a) == Some(b) by {
                    lemma_asset_names_distinct(a, b);
                }
            }
            return Some(a);
        }
        i = i + 1;
    }
    assert forall|a: Asset| asset_file_name(a) != name@ by {
        lemma_asset_listed(a);
        assert(asset_file_name(asset_at(asset_index(a))) != name@);
    }
    None
}

/// The bundled asset that the compiler asks for under `asset`. Asking for a name
/// that is not bundled is a fault of the caller.
pub fn get_asset(asset: &str) -> (r: Asset)
    requires
        is_asset_name(asset@),
    ensures
        asset_file_name(r) == asset@,
        forall|a: Asset| #[trigger] asset_file_name(a) == asset@ ==> r == a,
{
    match find_asset(asset) {
        Some(a) => a,
        None => {
            proof {
                assert(false);
            }
            Asset::LibDenoCore
        },
    }
}

} // verus!
