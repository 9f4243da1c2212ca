use rand::seq::SliceRandom;
use vstd::prelude::*;

verus! {

/// Los cuatro palos de la baraja francesa.
#[derive(Debug, Clone, Copy, PartialEq, Eq, Structural)]
pub enum Palo {
    Corazones,
    Diamantes,
    Treboles,
    Picas,
}

/// Una carta: un valor de 1 a 13 y un palo. Dos cartas con el mismo
/// par (valor, palo) son la misma carta; una baraja nunca repite un par.
#[derive(Debug, Clone, Copy, PartialEq, Eq, Structural)]
pub struct Carta {
    pub valor: u8,
    pub palo: Palo,
}

/// Una carta bien formada lleva un valor entre 1 (as) y 13 (rey).
pub open spec fn carta_valida(c: Carta) -> bool {
    1 <= c.valor <= 13
}

/// Todas las cartas de la secuencia son validas.
pub open spec fn cartas_validas(s: Seq<Carta>) -> bool {
    forall|i: int| 0 <= i < s.len() ==> carta_valida(#[trigger] s[i])
}

/// Puntos que aporta una carta antes de ajustar los ases: el as vale 11,
/// las figuras valen 10 y el resto vale su propio valor.
pub open spec fn puntos_carta(c: Carta) -> int {
    if c.valor == 1 {
        11
    } else if c.valor == 11 || c.valor == 12 || c.valor == 13 {
        10
    } else {
        c.valor as int
    }
}

/// Simbolo con el que se dibuja cada palo.
pub open spec fn simbolo_palo(p: Palo) -> char {
    match p {
        Palo::Corazones => '♡',
        Palo::Diamantes => '♢',
        Palo::Treboles => '♧',
        Palo::Picas => '♤',
    }
}

/// Etiqueta con la que se muestra cada valor: A, J, Q, K o el numero.
pub open spec fn etiqueta(valor: u8) -> Seq<char> {
    if valor == 1 {
        seq!['A']
    } else if valor == 11 {
        seq!['J']
    } else if valor == 12 {
        seq!['Q']
    } else if valor == 13 {
        seq!['K']
    } else if valor == 10 {
        seq!['1', '0']
    } else {
        seq![(('0' as u8) + valor) as char]
    }
}

impl Carta {
    /// Simbolo del palo de la carta.
    pub fn simbolo(&self) -> (r: char)
        ensures
            r == simbolo_palo(self.palo),
    {
        match self.palo {
            Palo::Corazones => '♡',
            Palo::Diamantes => '♢',
            Palo::Treboles => '♧',
            Palo::Picas => '♤',
        }
    }

    /// Puntos de la carta antes del ajuste de ases.
    pub fn puntos(&self) -> (r: u8)
        ensures
            r as int == puntos_carta(*self),
    {
        match self.valor {
            1 => 11,
            11 | 12 | 13 => 10,
            _ => self.valor,
        }
    }

    /// Texto con el que se muestra el valor de la carta.
    pub fn valor_str(&self) -> (r: String)
        requires
            carta_valida(*self),
        ensures
            r@ == etiqueta(self.valor),
    {
        let r = match self.valor {
            1 => "A",
            2 => "2",
            3 => "3",
            4 => "4",
            5 => "5",
            6 => "6",
            7 => "7",
            8 => "8",
            9 => "9",
            10 => "10",
            11 => "J",
            12 => "Q",
            13 => "K",
            _ => "",
        };
        proof {
            reveal_strlit("A");
            reveal_strlit("2");
            reveal_strlit("3");
            reveal_strlit("4");
            reveal_strlit("5");
            reveal_strlit("6");
            reveal_strlit("7");
            reveal_strlit("8");
            reveal_strlit("9");
            reveal_strlit("10");
            reveal_strlit("J");
            reveal_strlit("Q");
            reveal_strlit("K");
        }
        String::from_str(r)
    }
}

/// Palo que corresponde a cada vuelta del recorrido palo a palo.
pub open spec fn palo_numero(p: int) -> Palo {
    if p == 0 {
        Palo::Corazones
    } else if p == 1 {
        Palo::Diamantes
    } else if p == 2 {
        Palo::Treboles
    } else {
        Palo::Picas
    }
}

/// Carta que ocupa la posicion `i` en la enumeracion ordenada de la
/// baraja: primero los 13 corazones, luego diamantes, treboles y picas.
pub open spec fn carta_en(i: int) -> Carta {
    if i < 13 {
        Carta { valor: (i + 1) as u8, palo: Palo::Corazones }
    } else if i < 26 {
        Carta { valor: (i - 12) as u8, palo: Palo::Diamantes }
    } else if i < 39 {
        Carta { valor: (i - 25) as u8, palo: Palo::Treboles }
    } else {
        Carta { valor: (i - 38) as u8, palo: Palo::Picas }
    }
}

/// Posicion que ocupa una carta valida en la enumeracion ordenada.
pub open spec fn indice_carta(c: Carta) -> int {
    let base: int = match c.palo {
        Palo::Corazones => 0,
        Palo::Diamantes => 13,
        Palo::Treboles => 26,
        Palo::Picas => 39,
    };
    base + c.valor - 1
}

/// Una baraja completa: 52 cartas validas, sin pares (valor, palo)
/// repetidos, y con cada uno de los 52 pares presentes.
pub open spec fn baraja_completa(s: Seq<Carta>) -> bool {
    &&& s.len() == 52
    &&& s.no_duplicates()
    &&& cartas_validas(s)
    &&& forall|c: Carta| carta_valida(c) ==> s.contains(c)
}

/// La enumeracion ordenada de la baraja es completa.
proof fn lemma_enumeracion_completa(s: Seq<Carta>)
    requires
        s.len() == 52,
        forall|k: int| 0 <= k < 52 ==> s[k] == carta_en(k),
    ensures
        baraja_completa(s),
{
    assert forall|i: int, j: int| 0 <= i < 52 && 0 <= j < 52 && i != j implies s[i] != s[j] by {
        assert(carta_en(i) != carta_en(j));
    }
    assert forall|i: int| 0 <= i < s.len() implies carta_valida(#[trigger] s[i]) by {
        assert(s[i] == carta_en(i));
    }
    assert forall|c: Carta| carta_valida(c) implies s.contains(c) by {
        let k = indice_carta(c);
        match c.palo {
            Palo::Corazones => assert(k == c.valor - 1),
            Palo::Diamantes => assert(k == 13 + c.valor - 1),
            Palo::Treboles => assert(k == 26 + c.valor - 1),
            Palo::Picas => assert(k == 39 + c.valor - 1),
        }
        assert(carta_en(k).valor == c.valor && carta_en(k).palo == c.palo);
        assert(0 <= k < s.len());
        assert(s[k] == c);
        assert(s.contains(c));
    }
}

/// Dos secuencias con el mismo multiconjunto de cartas comparten la
/// validez de sus cartas y la ausencia de repetidas.
pub proof fn lemma_mismo_multiconjunto(a: Seq<Carta>, b: Seq<Carta>)
    requires
        a.to_multiset() == b.to_multiset(),
        a.no_duplicates(),
        cartas_validas(a),
    ensures
        b.no_duplicates(),
        cartas_validas(b),
        b.len() == a.len(),
{
    broadcast use vstd::seq_lib::group_to_multiset_ensures;

    assert(a.to_multiset().len() == a.len());
    assert(b.to_multiset().len() == b.len());
    assert forall|i: int| 0 <= i < b.len() implies carta_valida(#[trigger] b[i]) by {
        assert(b.contains(b[i]));
        assert(a.to_multiset().count(b[i]) > 0);
        assert(a.contains(b[i]));
        let j = choose|j: int| 0 <= j < a.len() && a[j] == b[i];
        assert(carta_valida(a[j]));
    }
    a.lemma_multiset_has_no_duplicates();
    assert forall|x: Carta| b.to_multiset().contains(x) implies b.to_multiset().count(x) == 1 by {
        assert(a.to_multiset().contains(x));
    }
    b.lemma_multiset_has_no_duplicates_conv();
}

/// Repartir el mismo multiconjunto de cartas conserva la baraja completa.
pub proof fn lemma_mezcla_conserva(a: Seq<Carta>, b: Seq<Carta>)
    requires
        a.to_multiset() == b.to_multiset(),
        baraja_completa(a),
    ensures
        baraja_completa(b),
{
    broadcast use vstd::seq_lib::group_to_multiset_ensures;

    lemma_mismo_multiconjunto(a, b);
    assert forall|c: Carta| carta_valida(c) implies b.contains(c) by {
        assert(a.contains(c));
        assert(b.to_multiset().count(c) > 0);
    }
}

/// Cuantas veces aparece la carta `c` en la secuencia.
pub open spec fn cuantas(s: Seq<Carta>, c: Carta) -> int
    decreases s.len(),
{
    if s.len() == 0 {
        0
    } else {
        cuantas(s.drop_last(), c) + if s.last() == c {
            1int
        } else {
            0int
        }
    }
}

/// Una carta que no esta en la secuencia aparece cero veces.
pub proof fn lemma_cuantas_ausente(s: Seq<Carta>, c: Carta)
    requires
        !s.contains(c),
    ensures
        cuantas(s, c) == 0,
    decreases s.len(),
{
    if s.len() > 0 {
        assert(s.last() != c);
        assert forall|i: int| 0 <= i < s.drop_last().len() implies s.drop_last()[i] != c by {
            assert(s.drop_last()[i] == s[i]);
        }
        lemma_cuantas_ausente(s.drop_last(), c);
    }
}

/// Sin pares repetidos, cada carta aparece a lo sumo una vez.
pub proof fn lemma_cuantas_unica(s: Seq<Carta>, c: Carta)
    requires
        s.no_duplicates(),
    ensures
        0 <= cuantas(s, c) <= 1,
    decreases s.len(),
{
    if s.len() > 0 {
        let resto = s.drop_last();
        assert forall|i: int, j: int|
            0 <= i < resto.len() && 0 <= j < resto.len() && i != j implies resto[i] != resto[j] by {
            assert(resto[i] == s[i] && resto[j] == s[j]);
        }
        if s.last() == c {
            assert forall|i: int| 0 <= i < resto.len() implies resto[i] != c by {
                assert(resto[i] == s[i]);
                assert(s[i] != s[s.len() - 1]);
            }
            lemma_cuantas_ausente(resto, c);
        } else {
            lemma_cuantas_unica(resto, c);
        }
    }
}

/// Se apoya en rand: `SliceRandom::shuffle` permuta el vector en el
/// sitio (un Fisher-Yates a base de intercambios), sin anadir ni
/// quitar elementos.
#[verifier::external_body]
fn mezclar(cartas: &mut Vec<Carta>)
    ensures
        final(cartas)@.to_multiset() == old(cartas)@.to_multiset(),
        final(cartas)@.len() == old(cartas)@.len(),
{
    cartas.shuffle(&mut rand::thread_rng());
}

/// Construye una baraja nueva, completa y barajada al azar.
pub fn crear_baraja() -> (r: Vec<Carta>)
    ensures
        baraja_completa(r@),
{
    let mut baraja: Vec<Carta> = Vec::new();
    let mut p: usize = 0;
    while p < 4
        invariant
            p <= 4,
            baraja@.len() == p * 13,
            forall|k: int| 0 <= k < baraja@.len() ==> baraja@[k] == carta_en(k),
        decreases 4 - p,
    {
        let palo = if p == 0 {
            Palo::Corazones
        } else if p == 1 {
            Palo::Diamantes
        } else if p == 2 {
            Palo::Treboles
        } else {
            Palo::Picas
        };
        let mut valor: u8 = 1;
        while valor <= 13
            invariant
                p < 4,
                1 <= valor <= 14,
                palo == palo_numero(p as int),
                baraja@.len() == p * 13 + valor - 1,
                forall|k: int| 0 <= k < baraja@.len() ==> baraja@[k] == carta_en(k),
            decreases 14 - valor,
        {
            proof {
                assert(carta_en(p * 13 + valor - 1) == (Carta { valor, palo }));
            }
            baraja.push(Carta { valor, palo });
            valor += 1;
        }
        p += 1;
    }
    proof {
        lemma_enumeracion_completa(baraja@);
    }
    let ghost antes = baraja@;
    mezclar(&mut baraja);
    proof {
        lemma_mezcla_conserva(antes, baraja@);
    }
    baraja
}

} // verus!
