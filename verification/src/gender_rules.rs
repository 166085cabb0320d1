//! Gender heuristics data (the `petrovich-rules` gender rules): exact-match
//! exceptions (load order androgynous, male, female; a name occurs once) and
//! suffix rules ordered by suffix length, longest first (equal lengths keep
//! load order).

use vstd::prelude::*;

use crate::gender::Gender;

verus! {

/// Exact-match exceptions for lastnames.
pub const LASTNAME_EXCEPTIONS: [(&'static str, Gender); 7] = [
    ("бова", Gender::Androgynous),
    ("регин", Gender::Androgynous),
    ("дарвин", Gender::Androgynous),
    ("пэйлин", Gender::Androgynous),
    ("грин", Gender::Androgynous),
    ("цин", Gender::Androgynous),
    ("шенгелая", Gender::Androgynous),
];

/// Suffix rules for lastnames.
pub const LASTNAME_SUFFIXES: [(&'static str, Gender); 17] = [
    ("кий", Gender::Male),
    ("хий", Gender::Male),
    ("ний", Gender::Male),
    ("ова", Gender::Female),
    ("ына", Gender::Female),
    ("ина", Gender::Female),
    ("ева", Gender::Female),
    ("ска", Gender::Female),
    ("ёва", Gender::Female),
    ("ов", Gender::Male),
    ("ын", Gender::Male),
    ("ев", Gender::Male),
    ("ин", Gender::Male),
    ("ёв", Gender::Male),
    ("ый", Gender::Male),
    ("ой", Gender::Male),
    ("ая", Gender::Female),
];

/// Exact-match exceptions for firstnames.
pub const FIRSTNAME_EXCEPTIONS: [(&'static str, Gender); 306] = [
    ("сева", Gender::Androgynous),
    ("иона", Gender::Androgynous),
    ("муса", Gender::Androgynous),
    ("саша", Gender::Androgynous),
    ("алвард", Gender::Androgynous),
    ("валери", Gender::Androgynous),
    ("кири", Gender::Androgynous),
    ("анри", Gender::Androgynous),
    ("ким", Gender::Androgynous),
    ("райхон", Gender::Androgynous),
    ("закия", Gender::Androgynous),
    ("захария", Gender::Androgynous),
    ("женя", Gender::Androgynous),
    ("абиба", Gender::Male),
    ("савва", Gender::Male),
    ("лёва", Gender::Male),
    ("вова", Gender::Male),
    ("ага", Gender::Male),
    ("ахмедага", Gender::Male),
    ("алиага", Gender::Male),
    ("амирага", Gender::Male),
    ("агга", Gender::Male),
    ("серега", Gender::Male),
    ("фейга", Gender::Male),
    ("гога", Gender::Male),
    ("алиада", Gender::Male),
    ("муктада", Gender::Male),
    ("абида", Gender::Male),
    ("алда", Gender::Male),
    ("маджуда", Gender::Male),
    ("нурлыхуда", Gender::Male),
    ("гиа", Gender::Male),
    ("элиа", Gender::Male),
    ("гарсиа", Gender::Male),
    ("вавила", Gender::Male),
    ("гавриила", Gender::Male),
    ("генка", Gender::Male),
    ("лука", Gender::Male),
    ("дима", Gender::Male),
    ("зосима", Gender::Male),
    ("тима", Gender::Male),
    ("фима", Gender::Male),
    ("фома", Gender::Male),
    ("кузьма", Gender::Male),
    ("жора", Gender::Male),
    ("миша", Gender::Male),
    ("ермила", Gender::Male),
    ("данила", Gender::Male),
    ("гаврила", Gender::Male),
    ("абдалла", Gender::Male),
    ("аталла", Gender::Male),
    ("абдилла", Gender::Male),
    ("атилла", Gender::Male),
    ("кайролла", Gender::Male),
    ("абулла", Gender::Male),
    ("абула", Gender::Male),
    ("свитлана", Gender::Male),
    ("бена", Gender::Male),
    ("гена", Gender::Male),
    ("агелина", Gender::Male),
    ("джанна", Gender::Male),
    ("кришна", Gender::Male),
    ("степа", Gender::Male),
    ("дра", Gender::Male),
    ("назера", Gender::Male),
    ("валера", Gender::Male),
    ("эстера", Gender::Male),
    ("двойра", Gender::Male),
    ("калистра", Gender::Male),
    ("заратустра", Gender::Male),
    ("юра", Gender::Male),
    ("иса", Gender::Male),
    ("аиса", Gender::Male),
    ("халиса", Gender::Male),
    ("холиса", Gender::Male),
    ("валенса", Gender::Male),
    ("мусса", Gender::Male),
    ("ата", Gender::Male),
    ("паата", Gender::Male),
    ("алета", Gender::Male),
    ("никита", Gender::Male),
    ("мота", Gender::Male),
    ("шота", Gender::Male),
    ("фаста", Gender::Male),
    ("коста", Gender::Male),
    ("маритта", Gender::Male),
    ("малюта", Gender::Male),
    ("васюта", Gender::Male),
    ("вафа", Gender::Male),
    ("мустафа", Gender::Male),
    ("ганифа", Gender::Male),
    ("лев", Gender::Male),
    ("яков", Gender::Male),
    ("шелли", Gender::Male),
    ("константин", Gender::Male),
    ("марсель", Gender::Male),
    ("рамиль", Gender::Male),
    ("эмиль", Gender::Male),
    ("бактыгуль", Gender::Male),
    ("даниэль", Gender::Male),
    ("игорь", Gender::Male),
    ("арминэ", Gender::Male),
    ("изя", Gender::Male),
    ("кузя", Gender::Male),
    ("гия", Gender::Male),
    ("мазия", Gender::Male),
    ("кирикия", Gender::Male),
    ("ркия", Gender::Male),
    ("еркия", Gender::Male),
    ("эркия", Gender::Male),
    ("гулия", Gender::Male),
    ("аксания", Gender::Male),
    ("закария", Gender::Male),
    ("зекерия", Gender::Male),
    ("гарсия", Gender::Male),
    ("шендля", Gender::Male),
    ("филя", Gender::Male),
    ("вилля", Gender::Male),
    ("толя", Gender::Male),
    ("ваня", Gender::Male),
    ("саня", Gender::Male),
    ("загиря", Gender::Male),
    ("боря", Gender::Male),
    ("цайся", Gender::Male),
    ("вася", Gender::Male),
    ("ося", Gender::Male),
    ("петя", Gender::Male),
    ("витя", Gender::Male),
    ("митя", Gender::Male),
    ("костя", Gender::Male),
    ("алья", Gender::Male),
    ("илья", Gender::Male),
    ("ларья", Gender::Male),
    ("артём", Gender::Male),
    ("карен", Gender::Male),
    ("рауль", Gender::Male),
    ("шамиль", Gender::Male),
    ("судаба", Gender::Female),
    ("сураба", Gender::Female),
    ("любава", Gender::Female),
    ("джанлука", Gender::Female),
    ("варвара", Gender::Female),
    ("наташа", Gender::Female),
    ("зайнаб", Gender::Female),
    ("любов", Gender::Female),
    ("сольвейг", Gender::Female),
    ("шакед", Gender::Female),
    ("аннаид", Gender::Female),
    ("ингрид", Gender::Female),
    ("синди", Gender::Female),
    ("аллаберди", Gender::Female),
    ("сандали", Gender::Female),
    ("лали", Gender::Female),
    ("натали", Gender::Female),
    ("гулькай", Gender::Female),
    ("алтынай", Gender::Female),
    ("гюнай", Gender::Female),
    ("гюльчитай", Gender::Female),
    ("нурангиз", Gender::Female),
    ("лиз", Gender::Female),
    ("элиз", Gender::Female),
    ("ботагоз", Gender::Female),
    ("юлдуз", Gender::Female),
    ("диляфруз", Gender::Female),
    ("габи", Gender::Female),
    ("сажи", Gender::Female),
    ("фанни", Gender::Female),
    ("мери", Gender::Female),
    ("элдари", Gender::Female),
    ("эльдари", Gender::Female),
    ("хилари", Gender::Female),
    ("хиллари", Gender::Female),
    ("аннемари", Gender::Female),
    ("розмари", Gender::Female),
    ("товсари", Gender::Female),
    ("ансари", Gender::Female),
    ("одри", Gender::Female),
    ("тери", Gender::Female),
    ("ири", Gender::Female),
    ("катри", Gender::Female),
    ("мэри", Gender::Female),
    ("сатаней", Gender::Female),
    ("ефтений", Gender::Female),
    ("верунчик", Gender::Female),
    ("гюзел", Gender::Female),
    ("этел", Gender::Female),
    ("рэйчел", Gender::Female),
    ("джил", Gender::Female),
    ("мерил", Gender::Female),
    ("нинелл", Gender::Female),
    ("бурул", Gender::Female),
    ("ахлам", Gender::Female),
    ("майрам", Gender::Female),
    ("махаррам", Gender::Female),
    ("мириам", Gender::Female),
    ("дилярам", Gender::Female),
    ("асем", Gender::Female),
    ("мерьем", Gender::Female),
    ("мирьем", Gender::Female),
    ("эркаим", Gender::Female),
    ("гулаим", Gender::Female),
    ("айгерим", Gender::Female),
    ("марьям", Gender::Female),
    ("мирьям", Gender::Female),
    ("эван", Gender::Female),
    ("гульжиган", Gender::Female),
    ("айдан", Gender::Female),
    ("айжан", Gender::Female),
    ("вивиан", Gender::Female),
    ("гульжиан", Gender::Female),
    ("лилиан", Gender::Female),
    ("мариан", Gender::Female),
    ("саиман", Gender::Female),
    ("джоан", Gender::Female),
    ("чулпан", Gender::Female),
    ("лоран", Gender::Female),
    ("моран", Gender::Female),
    ("джохан", Gender::Female),
    ("гульшан", Gender::Female),
    ("аделин", Gender::Female),
    ("жаклин", Gender::Female),
    ("карин", Gender::Female),
    ("каролин", Gender::Female),
    ("каталин", Gender::Female),
    ("катрин", Gender::Female),
    ("керстин", Gender::Female),
    ("кэтрин", Gender::Female),
    ("мэрилин", Gender::Female),
    ("рузалин", Gender::Female),
    ("хелин", Gender::Female),
    ("цеткин", Gender::Female),
    ("ширин", Gender::Female),
    ("элисон", Gender::Female),
    ("дурсун", Gender::Female),
    ("кристин", Gender::Female),
    ("гульжиян", Gender::Female),
    ("марьян", Gender::Female),
    ("ренато", Gender::Female),
    ("зейнеп", Gender::Female),
    ("санабар", Gender::Female),
    ("дильбар", Gender::Female),
    ("гулизар", Gender::Female),
    ("гульзар", Gender::Female),
    ("пилар", Gender::Female),
    ("дагмар", Gender::Female),
    ("элинар", Gender::Female),
    ("нилуфар", Gender::Female),
    ("анхар", Gender::Female),
    ("гаухар", Gender::Female),
    ("естер", Gender::Female),
    ("эстер", Gender::Female),
    ("дженнифер", Gender::Female),
    ("линор", Gender::Female),
    ("элинор", Gender::Female),
    ("элеонор", Gender::Female),
    ("айнур", Gender::Female),
    ("гульнур", Gender::Female),
    ("шамсинур", Gender::Female),
    ("элнур", Gender::Female),
    ("ильсияр", Gender::Female),
    ("нигяр", Gender::Female),
    ("сигитас", Gender::Female),
    ("агнес", Gender::Female),
    ("анес", Gender::Female),
    ("долорес", Gender::Female),
    ("инес", Gender::Female),
    ("анаис", Gender::Female),
    ("таис", Gender::Female),
    ("эллис", Gender::Female),
    ("элис", Gender::Female),
    ("кларис", Gender::Female),
    ("амнерис", Gender::Female),
    ("айрис", Gender::Female),
    ("дорис", Gender::Female),
    ("беатрис", Gender::Female),
    ("грейс", Gender::Female),
    ("грэйс", Gender::Female),
    ("ботагос", Gender::Female),
    ("маргос", Gender::Female),
    ("джулианс", Gender::Female),
    ("арус", Gender::Female),
    ("диляфрус", Gender::Female),
    ("саодат", Gender::Female),
    ("зулхижат", Gender::Female),
    ("хамат", Gender::Female),
    ("патимат", Gender::Female),
    ("хатимат", Gender::Female),
    ("альжанат", Gender::Female),
    ("маймунат", Gender::Female),
    ("гульшат", Gender::Female),
    ("биргит", Gender::Female),
    ("рут", Gender::Female),
    ("иргаш", Gender::Female),
    ("айнаш", Gender::Female),
    ("агнеш", Gender::Female),
    ("зауреш", Gender::Female),
    ("тэрбиш", Gender::Female),
    ("ануш", Gender::Female),
    ("азгануш", Gender::Female),
    ("гаруш", Gender::Female),
    ("николь", Gender::Female),
    ("адась", Gender::Female),
    ("афиля", Gender::Female),
    ("тафиля", Gender::Female),
    ("фаня", Gender::Female),
    ("аня", Gender::Female),
];

/// Suffix rules for firstnames.
pub const FIRSTNAME_SUFFIXES: [(&'static str, Gender); 124] = [
    ("емеля", Gender::Male),
    ("нуэль", Gender::Female),
    ("улла", Gender::Androgynous),
    ("сейн", Gender::Male),
    ("коля", Gender::Male),
    ("люба", Gender::Female),
    ("лава", Gender::Female),
    ("елли", Gender::Female),
    ("гуль", Gender::Female),
    ("гюль", Gender::Female),
    ("аба", Gender::Male),
    ("али", Gender::Male),
    ("мет", Gender::Male),
    ("иба", Gender::Female),
    ("ева", Gender::Female),
    ("иза", Gender::Female),
    ("ика", Gender::Female),
    ("нка", Gender::Female),
    ("ска", Gender::Female),
    ("ела", Gender::Female),
    ("ила", Gender::Female),
    ("лла", Gender::Female),
    ("эла", Gender::Female),
    ("има", Gender::Female),
    ("еса", Gender::Female),
    ("сса", Gender::Female),
    ("вья", Gender::Female),
    ("лья", Gender::Female),
    ("мья", Gender::Female),
    ("нья", Gender::Female),
    ("рья", Gender::Female),
    ("сья", Gender::Female),
    ("тья", Gender::Female),
    ("фья", Gender::Female),
    ("ав", Gender::Male),
    ("ев", Gender::Male),
    ("ов", Gender::Male),
    ("би", Gender::Male),
    ("ди", Gender::Male),
    ("жи", Gender::Male),
    ("ри", Gender::Male),
    ("ай", Gender::Male),
    ("ей", Gender::Male),
    ("ий", Gender::Male),
    ("ой", Gender::Male),
    ("ый", Gender::Male),
    ("ам", Gender::Male),
    ("ем", Gender::Male),
    ("им", Gender::Male),
    ("ом", Gender::Male),
    ("ум", Gender::Male),
    ("ым", Gender::Male),
    ("ям", Gender::Male),
    ("ан", Gender::Male),
    ("ен", Gender::Male),
    ("ин", Gender::Male),
    ("он", Gender::Male),
    ("ун", Gender::Male),
    ("ян", Gender::Male),
    ("ио", Gender::Male),
    ("ло", Gender::Male),
    ("ро", Gender::Male),
    ("то", Gender::Male),
    ("шо", Gender::Male),
    ("ар", Gender::Male),
    ("др", Gender::Male),
    ("ер", Gender::Male),
    ("ир", Gender::Male),
    ("ор", Gender::Male),
    ("тр", Gender::Male),
    ("ур", Gender::Male),
    ("ыр", Gender::Male),
    ("яр", Gender::Male),
    ("ас", Gender::Male),
    ("ес", Gender::Male),
    ("ис", Gender::Male),
    ("йс", Gender::Male),
    ("кс", Gender::Male),
    ("мс", Gender::Male),
    ("ос", Gender::Male),
    ("нс", Gender::Male),
    ("рс", Gender::Male),
    ("ус", Gender::Male),
    ("юс", Gender::Male),
    ("яс", Gender::Male),
    ("ат", Gender::Male),
    ("кт", Gender::Male),
    ("нт", Gender::Male),
    ("рт", Gender::Male),
    ("ст", Gender::Male),
    ("ут", Gender::Male),
    ("сь", Gender::Male),
    ("га", Gender::Female),
    ("да", Gender::Female),
    ("еа", Gender::Female),
    ("иа", Gender::Female),
    ("на", Gender::Female),
    ("ра", Gender::Female),
    ("са", Gender::Female),
    ("та", Gender::Female),
    ("фа", Gender::Female),
    ("нэ", Gender::Female),
    ("ая", Gender::Female),
    ("ея", Gender::Female),
    ("ия", Gender::Female),
    ("йя", Gender::Female),
    ("ля", Gender::Female),
    ("мя", Gender::Female),
    ("оя", Gender::Female),
    ("ря", Gender::Female),
    ("ся", Gender::Female),
    ("зя", Gender::Female),
    ("б", Gender::Male),
    ("г", Gender::Male),
    ("д", Gender::Male),
    ("ж", Gender::Male),
    ("з", Gender::Male),
    ("к", Gender::Male),
    ("л", Gender::Male),
    ("п", Gender::Male),
    ("ф", Gender::Male),
    ("х", Gender::Male),
    ("ш", Gender::Male),
    ("ы", Gender::Male),
];

/// Exact-match exceptions for middlenames.
pub const MIDDLENAME_EXCEPTIONS: [(&'static str, Gender); 0] = [
];

/// Suffix rules for middlenames.
pub const MIDDLENAME_SUFFIXES: [(&'static str, Gender); 12] = [
    ("оглы", Gender::Male),
    ("уулу", Gender::Male),
    ("угли", Gender::Male),
    ("углы", Gender::Male),
    ("кызы", Gender::Female),
    ("гызы", Gender::Female),
    ("кизи", Gender::Female),
    ("улы", Gender::Male),
    ("кзы", Gender::Female),
    ("ыч", Gender::Male),
    ("ич", Gender::Male),
    ("на", Gender::Female),
];
} // verus!
