use mips_parser::defs::directive::Directive;
use mips_parser::defs::UnknownKeyword;

const ERR: Result<Directive, UnknownKeyword> = Err(UnknownKeyword);

#[test]
fn directive_str_parse() {
    let strs = ["kdata", "end_macro", "endmacro", "EndMacro", "asciiz","ascii", "include", "word"];
    let dirs = [
        Ok(Directive::Kdata),
        Ok(Directive::EndMacro),
        ERR,
        ERR,
        Ok(Directive::Asciiz),
        Ok(Directive::Ascii),
        Ok(Directive::Include),
        Ok(Directive::Word),
    ];
    for (s, d) in strs.into_iter().zip(dirs.into_iter()) {
        assert_eq!(s.parse::<Directive>(), d);
    }
}
